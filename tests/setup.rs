use fervid::ast::{Expr, PropName, PropOrSpread};
use fervid::error::{CssError, Span, TransformError, TransformErrorKind};
use fervid::scope::ScopeHelper;
use fervid::setup::{
    collect_imports, get_setup_fn_params, merge_sfc_helper, transform_and_record_script_setup,
    transform_and_record_stmt, BindingTypes, Decl, ImportDecl, ImportSpecifier, Module,
    ModuleDecl, ModuleItem, Param, SfcExportedObjectHelper, SfcScriptBlock, Stmt, TsEnumDecl,
    VarDecl, VarDeclKind, VarDeclarator, VueResolvedImports,
};

fn s(n: &str) -> String {
    n.to_string()
}

fn ident(n: &str) -> Expr {
    Expr::Ident(s(n))
}

fn call(callee: &str, args: Vec<Expr>) -> Expr {
    Expr::Call { callee: Box::new(ident(callee)), args }
}

fn named(local: &str) -> ImportSpecifier {
    ImportSpecifier::Named { local: s(local), imported: None, is_type_only: false }
}

fn aliased(imported: &str, local: &str) -> ImportSpecifier {
    ImportSpecifier::Named { local: s(local), imported: Some(s(imported)), is_type_only: false }
}

fn type_named(local: &str) -> ImportSpecifier {
    ImportSpecifier::Named { local: s(local), imported: None, is_type_only: true }
}

fn import(specifiers: Vec<ImportSpecifier>, src: &str) -> ModuleItem {
    ModuleItem::ModuleDecl(ModuleDecl::Import(ImportDecl { specifiers, src: s(src), type_only: false }))
}

fn import_type(specifiers: Vec<ImportSpecifier>, src: &str) -> ModuleItem {
    ModuleItem::ModuleDecl(ModuleDecl::Import(ImportDecl { specifiers, src: s(src), type_only: true }))
}

fn var(kind: VarDeclKind, decls: Vec<(&str, Expr)>) -> ModuleItem {
    ModuleItem::Stmt(Stmt::Decl(Decl::Var(VarDecl {
        kind,
        decls: decls
            .into_iter()
            .map(|(name, init)| VarDeclarator { name: s(name), init: Some(init) })
            .collect(),
    })))
}

fn const_decl(name: &str, init: Expr) -> ModuleItem {
    var(VarDeclKind::Const, vec![(name, init)])
}

fn ts_enum(id: &str, is_const: bool, declare: bool, members: &[&str]) -> ModuleItem {
    ModuleItem::Stmt(Stmt::Decl(Decl::TsEnum(TsEnumDecl {
        id: s(id),
        is_const,
        declare,
        members: members.iter().map(|m| s(m)).collect(),
    })))
}

fn expr_stmt(e: Expr) -> ModuleItem {
    ModuleItem::Stmt(Stmt::Expr(e))
}

struct Analysis {
    imports: Vec<String>,
    vue_imports: VueResolvedImports,
    setup: Vec<(String, BindingTypes)>,
}

fn analyze(items: Vec<ModuleItem>) -> Analysis {
    let mut imports = Vec::new();
    let mut vue_imports = VueResolvedImports::new();
    let mut setup = Vec::new();
    let mut sfc_object = SfcExportedObjectHelper::new();
    for item in items {
        match item {
            ModuleItem::ModuleDecl(ModuleDecl::Import(ref import_decl)) => {
                collect_imports(import_decl, &mut imports, &mut vue_imports)
            }
            ModuleItem::Stmt(stmt) => {
                transform_and_record_stmt(stmt, &mut setup, &vue_imports, &mut sfc_object);
            }
            _ => {}
        }
    }
    Analysis {
        imports,
        vue_imports,
        setup: setup.into_iter().map(|b| (b.0, b.1)).collect(),
    }
}

fn names(v: &[&str]) -> Vec<String> {
    v.iter().map(|n| s(n)).collect()
}

fn bindings(v: &[(&str, BindingTypes)]) -> Vec<(String, BindingTypes)> {
    v.iter().map(|(n, b)| (s(n), *b)).collect()
}

fn no_vue_imports(v: &VueResolvedImports) -> bool {
    v.ref_import.is_none() && v.computed.is_none() && v.reactive.is_none()
}

#[test]
fn it_ignores_type_imports() {
    let result = analyze(vec![
        import_type(vec![named("ref")], "vue"),
        import_type(vec![named("foo")], "./foo"),
        import(vec![type_named("computed")], "vue"),
        import(vec![type_named("baz"), type_named("qux")], "baz"),
    ]);
    assert_eq!(result.imports, Vec::<String>::new());
    assert!(no_vue_imports(&result.vue_imports));
    assert_eq!(result.setup, vec![]);
}

#[test]
fn it_collects_vue_imports() {
    let result = analyze(vec![import(vec![named("ref"), named("computed"), named("reactive")], "vue")]);
    assert_eq!(result.vue_imports.ref_import, Some(s("ref")));
    assert_eq!(result.vue_imports.computed, Some(s("computed")));
    assert_eq!(result.vue_imports.reactive, Some(s("reactive")));
    // Every value import is listed, the framework's included.
    assert_eq!(result.imports, names(&["ref", "computed", "reactive"]));
    assert_eq!(result.setup, vec![]);

    let result = analyze(vec![import(
        vec![aliased("ref", "foo"), aliased("computed", "bar"), aliased("reactive", "baz")],
        "vue",
    )]);
    assert_eq!(result.vue_imports.ref_import, Some(s("foo")));
    assert_eq!(result.vue_imports.computed, Some(s("bar")));
    assert_eq!(result.vue_imports.reactive, Some(s("baz")));
    // Every value import is listed, the framework's included.
    assert_eq!(result.imports, names(&["foo", "bar", "baz"]));
    assert_eq!(result.setup, vec![]);
}

#[test]
fn it_collects_mixed_imports() {
    let result = analyze(vec![
        import(vec![named("ref"), named("computed"), named("reactive")], "vue"),
        import(vec![ImportSpecifier::Namespace { local: s("foo") }], "./foo"),
        import(vec![ImportSpecifier::Default { local: s("Bar") }], "bar-js"),
        import(vec![named("baz"), named("qux")], "@loremipsum/core"),
    ]);
    // Every value import is listed, the framework's included.
    assert_eq!(
        result.imports,
        names(&["ref", "computed", "reactive", "foo", "Bar", "baz", "qux"])
    );
    assert_eq!(result.vue_imports.ref_import, Some(s("ref")));
    assert_eq!(result.vue_imports.computed, Some(s("computed")));
    assert_eq!(result.vue_imports.reactive, Some(s("reactive")));
    assert_eq!(result.setup, vec![]);
}

#[test]
fn it_collects_refs() {
    let result = analyze(vec![
        import(vec![named("ref"), named("computed")], "vue"),
        const_decl("foo", call("ref", vec![])),
        const_decl("bar", call("ref", vec![Expr::Lit(s("42"))])),
        const_decl("baz", call("computed", vec![])),
        const_decl("qux", call("computed", vec![Expr::Arrow { params: vec![], body: Box::new(Expr::Lit(s("42"))) }])),
    ]);
    assert_eq!(
        result.setup,
        bindings(&[
            ("foo", BindingTypes::SetupRef),
            ("bar", BindingTypes::SetupRef),
            ("baz", BindingTypes::SetupRef),
            ("qux", BindingTypes::SetupRef),
        ])
    );
    assert_eq!(result.vue_imports.ref_import, Some(s("ref")));
    assert_eq!(result.vue_imports.computed, Some(s("computed")));
    assert_eq!(result.vue_imports.reactive, None);
    // Every value import is listed, the framework's included.
    assert_eq!(result.imports, names(&["ref", "computed"]));
}

#[test]
fn it_supports_multi_declarations() {
    let decls = |prefix: &str| {
        vec![
            (format!("{}Foo", prefix), call("ref", vec![Expr::Str(s("foo"))])),
            (
                format!("{}Bar", prefix),
                call("computed", vec![Expr::Arrow { params: vec![], body: Box::new(Expr::Lit(s("42"))) }]),
            ),
            (
                format!("{}Baz", prefix),
                call("reactive", vec![Expr::Object(vec![PropOrSpread::KeyValue {
                    key: PropName::Ident(s("qux")),
                    value: Box::new(Expr::Lit(s("true"))),
                }])]),
            ),
        ]
    };
    let owned = |kind: VarDeclKind, prefix: &str| {
        ModuleItem::Stmt(Stmt::Decl(Decl::Var(VarDecl {
            kind,
            decls: decls(prefix)
                .into_iter()
                .map(|(name, init)| VarDeclarator { name, init: Some(init) })
                .collect(),
        })))
    };
    let result = analyze(vec![
        import(vec![named("ref"), named("computed"), named("reactive")], "vue"),
        owned(VarDeclKind::Const, "cst"),
        owned(VarDeclKind::Let, "let"),
        owned(VarDeclKind::Var, "var"),
    ]);
    assert_eq!(result.vue_imports.ref_import, Some(s("ref")));
    assert_eq!(result.vue_imports.computed, Some(s("computed")));
    assert_eq!(result.vue_imports.reactive, Some(s("reactive")));
    assert_eq!(
        result.setup,
        bindings(&[
            ("cstFoo", BindingTypes::SetupRef),
            ("cstBar", BindingTypes::SetupRef),
            ("cstBaz", BindingTypes::SetupReactiveConst),
            ("letFoo", BindingTypes::SetupLet),
            ("letBar", BindingTypes::SetupLet),
            ("letBaz", BindingTypes::SetupLet),
            ("varFoo", BindingTypes::SetupLet),
            ("varBar", BindingTypes::SetupLet),
            ("varBaz", BindingTypes::SetupLet),
        ])
    );
    // Every value import is listed, the framework's included.
    assert_eq!(result.imports, names(&["ref", "computed", "reactive"]));
}

#[test]
fn it_collects_non_vue_imports() {
    let result = analyze(vec![
        import(vec![named("ref")], "./vue"),
        import(vec![named("computed")], "vue-impostor"),
        import(vec![named("reactive")], "vue/internals"),
        import(vec![ImportSpecifier::Namespace { local: s("foo") }], "./foo"),
        import(vec![ImportSpecifier::Default { local: s("Bar") }], "bar-js"),
        import(vec![named("baz"), named("qux")], "@loremipsum/core"),
    ]);
    assert_eq!(
        result.imports,
        names(&["ref", "computed", "reactive", "foo", "Bar", "baz", "qux"])
    );
    assert!(no_vue_imports(&result.vue_imports));
    assert_eq!(result.setup, vec![]);
}

#[test]
fn it_recognizes_non_vue_refs() {
    let result = analyze(vec![
        import(vec![named("ref")], "./vue"),
        import(vec![named("computed")], "vue-impostor"),
        import(vec![named("reactive")], "vue/internals"),
        const_decl("foo", call("ref", vec![])),
        const_decl("bar", call("ref", vec![Expr::Lit(s("42"))])),
        const_decl("baz", call("computed", vec![])),
        const_decl("qux", call("computed", vec![Expr::Arrow { params: vec![], body: Box::new(Expr::Lit(s("42"))) }])),
        const_decl("rea", call("reactive", vec![])),
        const_decl("reb", call("reactive", vec![Expr::Object(vec![])])),
    ]);
    assert_eq!(result.imports, names(&["ref", "computed", "reactive"]));
    assert!(no_vue_imports(&result.vue_imports));
    assert_eq!(
        result.setup,
        bindings(&[
            ("foo", BindingTypes::SetupMaybeRef),
            ("bar", BindingTypes::SetupMaybeRef),
            ("baz", BindingTypes::SetupMaybeRef),
            ("qux", BindingTypes::SetupMaybeRef),
            ("rea", BindingTypes::SetupMaybeRef),
            ("reb", BindingTypes::SetupMaybeRef),
        ])
    );
}

#[test]
fn it_supports_ts_enums() {
    let result = analyze(vec![
        ts_enum("Foo", false, false, &[]),
        ts_enum("Bar", true, false, &["One", "Two", "Three"]),
        ts_enum("Baz", false, true, &[]),
        ts_enum("Qux", true, true, &["AmbientOne", "AmbientTwo"]),
    ]);
    assert_eq!(result.imports, Vec::<String>::new());
    assert!(no_vue_imports(&result.vue_imports));
    assert_eq!(
        result.setup,
        bindings(&[
            ("Foo", BindingTypes::LiteralConst),
            ("Bar", BindingTypes::LiteralConst),
            ("Baz", BindingTypes::LiteralConst),
            ("Qux", BindingTypes::LiteralConst),
        ])
    );
}

#[test]
fn ref_from_vue_is_setup_ref() {
    let result = analyze(vec![import(vec![named("ref")], "vue"), const_decl("x", call("ref", vec![]))]);
    assert_eq!(result.setup, bindings(&[("x", BindingTypes::SetupRef)]));
    let result = analyze(vec![import(vec![named("ref")], "./vue"), const_decl("x", call("ref", vec![]))]);
    assert_eq!(result.setup, bindings(&[("x", BindingTypes::SetupMaybeRef)]));
}

#[test]
fn aliased_ref_call_is_setup_ref() {
    let result = analyze(vec![
        import(vec![aliased("ref", "myRef")], "vue"),
        const_decl("a", call("myRef", vec![])),
        const_decl("b", call("ref", vec![])),
    ]);
    assert_eq!(
        result.setup,
        bindings(&[("a", BindingTypes::SetupRef), ("b", BindingTypes::SetupMaybeRef)])
    );
}

#[test]
fn multi_declarator_keeps_order() {
    let result = analyze(vec![
        import(vec![named("ref"), named("computed")], "vue"),
        var(
            VarDeclKind::Const,
            vec![
                ("a", call("ref", vec![Expr::Lit(s("1"))])),
                ("b", call("computed", vec![Expr::Arrow { params: vec![], body: Box::new(Expr::Lit(s("2"))) }])),
            ],
        ),
    ]);
    assert_eq!(
        result.setup,
        bindings(&[("a", BindingTypes::SetupRef), ("b", BindingTypes::SetupRef)])
    );
}

#[test]
fn mutability_rules() {
    let result = analyze(vec![
        import(vec![named("ref"), named("reactive")], "vue"),
        var(VarDeclKind::Const, vec![("c", call("reactive", vec![])), ("d", call("foo", vec![])), ("e", Expr::Lit(s("1")))]),
        var(VarDeclKind::Let, vec![("l", call("reactive", vec![])), ("m", call("ref", vec![])), ("n", Expr::Lit(s("1")))]),
        var(VarDeclKind::Var, vec![("v", call("computed", vec![]))]),
    ]);
    assert_eq!(
        result.setup,
        bindings(&[
            ("c", BindingTypes::SetupReactiveConst),
            ("d", BindingTypes::SetupConst),
            ("e", BindingTypes::SetupConst),
            ("l", BindingTypes::SetupLet),
            ("m", BindingTypes::SetupLet),
            ("n", BindingTypes::SetupLet),
            ("v", BindingTypes::SetupLet),
        ])
    );
}

fn script(items: Vec<ModuleItem>) -> SfcScriptBlock {
    SfcScriptBlock { content: Module { body: items } }
}

fn params_of(items: Vec<ModuleItem>) -> Vec<Param> {
    let mut helper = ScopeHelper::new();
    transform_and_record_script_setup(script(items), &mut helper).setup_fn.unwrap().params
}

fn ctx_fields(p: &Param) -> Vec<(String, String)> {
    match p {
        Param::Object(props) => props.iter().map(|kv| (kv.key.clone(), kv.value.clone())).collect(),
        Param::Ident(_) => panic!("expected the context parameter"),
    }
}

fn is_props_param(p: &Param) -> bool {
    matches!(p, Param::Ident(n) if n == "__props")
}

#[test]
fn no_declarations_no_params() {
    assert!(params_of(vec![const_decl("x", Expr::Lit(s("1")))]).is_empty());
}

#[test]
fn props_only_one_param() {
    let params = params_of(vec![expr_stmt(call("defineProps", vec![]))]);
    assert_eq!(params.len(), 1);
    assert!(is_props_param(&params[0]));
}

#[test]
fn emits_only_destructures_emit() {
    let params = params_of(vec![expr_stmt(call("defineEmits", vec![]))]);
    assert_eq!(params.len(), 2);
    assert!(is_props_param(&params[0]));
    assert_eq!(ctx_fields(&params[1]), vec![(s("emit"), s("__emit"))]);
}

#[test]
fn expose_only_destructures_expose() {
    let params = params_of(vec![expr_stmt(call("defineExpose", vec![]))]);
    assert_eq!(params.len(), 2);
    assert!(is_props_param(&params[0]));
    assert_eq!(ctx_fields(&params[1]), vec![(s("expose"), s("__expose"))]);
}

#[test]
fn emits_and_expose_destructure_both() {
    let params = params_of(vec![
        expr_stmt(call("defineExpose", vec![])),
        const_decl("emit", call("defineEmits", vec![])),
    ]);
    assert_eq!(params.len(), 2);
    assert!(is_props_param(&params[0]));
    assert_eq!(
        ctx_fields(&params[1]),
        vec![(s("emit"), s("__emit")), (s("expose"), s("__expose"))]
    );
}

#[test]
fn script_setup_splits_items() {
    let mut helper = ScopeHelper::new();
    let result = transform_and_record_script_setup(
        script(vec![
            const_decl("count", call("ref", vec![Expr::Lit(s("0"))])),
            import(vec![named("ref")], "vue"),
            expr_stmt(call("defineProps", vec![Expr::Array(vec![Some(Expr::Lit(s("'a'")))])])),
            const_decl("emit", call("defineEmits", vec![])),
            ModuleItem::ModuleDecl(ModuleDecl::Other(s("export const x = 1"))),
            ModuleItem::Stmt(Stmt::Other(s("console.log(count)"))),
        ]),
        &mut helper,
    );
    assert_eq!(result.module_decls.len(), 2);
    assert!(matches!(&result.module_decls[0], ModuleDecl::Import(d) if d.src == "vue"));
    let bound: Vec<(String, BindingTypes)> =
        helper.setup_bindings.iter().map(|b| (b.0.clone(), b.1)).collect();
    assert_eq!(
        bound,
        bindings(&[("count", BindingTypes::SetupRef), ("emit", BindingTypes::SetupConst)])
    );
    let body = result.setup_fn.unwrap().body;
    assert_eq!(body.len(), 3);
    match &body[1] {
        Stmt::Decl(Decl::Var(v)) => {
            assert!(matches!(&v.decls[0].init, Some(Expr::Ident(n)) if n == "__emit"));
        }
        _ => panic!("expected the emit declaration"),
    }
    assert!(matches!(&body[2], Stmt::Other(t) if t == "console.log(count)"));
    assert_eq!(result.sfc_object_helper.props.as_ref().map(|a| a.len()), Some(1));
    assert_eq!(result.sfc_object_helper.emits.as_ref().map(|a| a.len()), Some(0));
}

fn model_entry_key(p: &PropOrSpread) -> String {
    match p {
        PropOrSpread::KeyValue { key: PropName::Str(k), .. } => k.clone(),
        _ => panic!("expected a model entry"),
    }
}

#[test]
fn model_declares_props_and_emits() {
    let mut helper = ScopeHelper::new();
    let result = transform_and_record_script_setup(
        script(vec![
            const_decl("m", call("defineModel", vec![])),
            expr_stmt(call("defineModel", vec![Expr::Str(s("count"))])),
        ]),
        &mut helper,
    );
    assert_eq!(result.sfc_object_helper.models, names(&["modelValue", "count"]));
    let props = result.sfc_object_helper.props.as_ref().unwrap();
    assert_eq!(props.len(), 1);
    match &props[0] {
        Expr::Object(entries) => {
            assert_eq!(entries.iter().map(model_entry_key).collect::<Vec<_>>(), names(&["modelValue", "count"]));
        }
        _ => panic!("expected an object of properties"),
    }
    let emits = result.sfc_object_helper.emits.as_ref().unwrap();
    match &emits[0] {
        Expr::Array(elements) => {
            let keys: Vec<String> = elements
                .iter()
                .map(|e| match e {
                    Some(Expr::Str(k)) => k.clone(),
                    _ => panic!("expected an event name"),
                })
                .collect();
            assert_eq!(keys, names(&["update:modelValue", "update:count"]));
        }
        _ => panic!("expected an array of events"),
    }
    let setup_fn = result.setup_fn.unwrap();
    assert_eq!(setup_fn.params.len(), 2);
    match &setup_fn.body[0] {
        Stmt::Decl(Decl::Var(v)) => match &v.decls[0].init {
            Some(Expr::Call { callee, args }) => {
                assert!(matches!(&**callee, Expr::Ident(n) if n == "_useModel"));
                assert!(matches!(&args[0], Expr::Ident(n) if n == "__props"));
                assert!(matches!(&args[1], Expr::Str(n) if n == "modelValue"));
            }
            _ => panic!("expected the model call"),
        },
        _ => panic!("expected the model declaration"),
    }
}

#[test]
fn model_extends_declared_props_object() {
    let mut helper = ScopeHelper::new();
    let result = transform_and_record_script_setup(
        script(vec![
            expr_stmt(call("defineProps", vec![Expr::Object(vec![PropOrSpread::Shorthand(s("title"))])])),
            expr_stmt(call("defineEmits", vec![Expr::Array(vec![Some(Expr::Str(s("close")))])])),
            expr_stmt(call("defineModel", vec![Expr::Str(s("open"))])),
        ]),
        &mut helper,
    );
    match &result.sfc_object_helper.props.as_ref().unwrap()[0] {
        Expr::Object(entries) => {
            assert_eq!(entries.len(), 2);
            assert!(matches!(&entries[0], PropOrSpread::Shorthand(n) if n == "title"));
            assert_eq!(model_entry_key(&entries[1]), "open");
        }
        _ => panic!("expected an object of properties"),
    }
    match &result.sfc_object_helper.emits.as_ref().unwrap()[0] {
        Expr::Array(elements) => {
            assert_eq!(elements.len(), 2);
            assert!(matches!(&elements[1], Some(Expr::Str(n)) if n == "update:open"));
        }
        _ => panic!("expected an array of events"),
    }
}

#[test]
fn declarator_macros_are_recorded() {
    let mut helper = ScopeHelper::new();
    let result = transform_and_record_script_setup(
        script(vec![const_decl("e", call("defineExpose", vec![])), const_decl("o", call("defineOptions", vec![]))]),
        &mut helper,
    );
    assert!(result.sfc_object_helper.exposes);
    let body = result.setup_fn.unwrap().body;
    for stmt in body.iter() {
        match stmt {
            Stmt::Decl(Decl::Var(v)) => {
                assert!(matches!(&v.decls[0].init, Some(Expr::Ident(n)) if n == "undefined"));
            }
            _ => panic!("expected a declaration"),
        }
    }
}

fn helper_with(props: bool, emits: bool, exposes: bool) -> SfcExportedObjectHelper {
    let mut h = SfcExportedObjectHelper::new();
    if props {
        h.props = Some(vec![]);
    }
    if emits {
        h.emits = Some(vec![]);
    }
    h.exposes = exposes;
    h
}

#[test]
fn params_from_helper_fields() {
    assert!(get_setup_fn_params(&helper_with(false, false, false)).is_empty());
    let only_props = get_setup_fn_params(&helper_with(true, false, false));
    assert_eq!(only_props.len(), 1);
    assert!(is_props_param(&only_props[0]));
    let only_emits = get_setup_fn_params(&helper_with(false, true, false));
    assert_eq!(only_emits.len(), 2);
    assert!(is_props_param(&only_emits[0]));
    assert_eq!(ctx_fields(&only_emits[1]), vec![(s("emit"), s("__emit"))]);
    let only_expose = get_setup_fn_params(&helper_with(true, false, true));
    assert_eq!(only_expose.len(), 2);
    assert_eq!(ctx_fields(&only_expose[1]), vec![(s("expose"), s("__expose"))]);
    let both = get_setup_fn_params(&helper_with(false, true, true));
    assert_eq!(
        ctx_fields(&both[1]),
        vec![(s("emit"), s("__emit")), (s("expose"), s("__expose"))]
    );
}

#[test]
fn merge_appends_emits_props_then_options() {
    let mut helper = SfcExportedObjectHelper::new();
    let mut stmts = vec![];
    let mut setup = vec![];
    let vue = VueResolvedImports::new();
    for e in [
        call("defineOptions", vec![Expr::Object(vec![PropOrSpread::KeyValue {
            key: PropName::Ident(s("name")),
            value: Box::new(Expr::Lit(s("'Comp'"))),
        }])]),
        call("defineProps", vec![ident("propsDef")]),
        call("defineEmits", vec![]),
    ] {
        stmts.push(transform_and_record_stmt(Stmt::Expr(e), &mut setup, &vue, &mut helper));
    }
    assert!(stmts.iter().all(|s| s.is_none()));
    let mut dest = vec![PropOrSpread::Shorthand(s("components"))];
    merge_sfc_helper(helper, &mut dest);
    assert_eq!(dest.len(), 4);
    match &dest[1] {
        PropOrSpread::KeyValue { key: PropName::Ident(k), value } => {
            assert_eq!(k, "emits");
            assert!(matches!(&**value, Expr::Object(v) if v.is_empty()));
        }
        _ => panic!("expected emits"),
    }
    match &dest[2] {
        PropOrSpread::KeyValue { key: PropName::Ident(k), value } => {
            assert_eq!(k, "props");
            assert!(matches!(&**value, Expr::Ident(n) if n == "propsDef"));
        }
        _ => panic!("expected props"),
    }
    assert!(matches!(&dest[3], PropOrSpread::KeyValue { key: PropName::Ident(k), .. } if k == "name"));
}

#[test]
fn transform_error_from_css_error() {
    let err = TransformError::from(CssError { span: Span { lo: 3, hi: 9 }, message: s("bad") });
    assert_eq!(err.span(), Span { lo: 3, hi: 9 });
    let TransformErrorKind::CssError(inner) = err.kind;
    assert_eq!(inner.message, "bad");
}
