//! Analysis of the setup script: the framework imports it makes, the kind of
//! each binding it declares, the compiler macros it calls, and the parameters
//! of the setup function synthesised from them.

use vstd::prelude::*;
use vstd::string::StringExecFns;

use crate::ast::{names_of, Expr, PropName, PropOrSpread};
use crate::scope::ScopeHelper;

verus! {

/// The kind of a binding that the setup script declares.
#[derive(Clone, Copy, Debug, PartialEq, Eq, Structural)]
pub enum BindingTypes {
    /// Declared with `let` or `var`.
    SetupLet,
    /// Declared with `const`, of no more specific kind.
    SetupConst,
    /// A `const` made by the framework's `reactive`.
    SetupReactiveConst,
    /// A `const` made by a call of a function named like a framework factory
    /// that was not imported from the framework.
    SetupMaybeRef,
    /// A `const` made by the framework's `ref` or `computed`.
    SetupRef,
    /// A constant known at compile time, such as an enum.
    LiteralConst,
}

/// A name that the setup script declares, with its kind.
pub struct SetupBinding(pub String, pub BindingTypes);

pub open spec fn binding_view(b: SetupBinding) -> (Seq<char>, BindingTypes) {
    (b.0@, b.1)
}

pub open spec fn bindings_view(v: Seq<SetupBinding>) -> Seq<(Seq<char>, BindingTypes)> {
    v.map_values(|b: SetupBinding| binding_view(b))
}

/// One specifier of an import declaration.
pub enum ImportSpecifier {
    /// `import { imported as local }`, or `import { local }` when `imported` is absent.
    Named { local: String, imported: Option<String>, is_type_only: bool },
    /// `import local from '...'`
    Default { local: String },
    /// `import * as local from '...'`
    Namespace { local: String },
}

pub struct ImportDecl {
    pub specifiers: Vec<ImportSpecifier>,
    /// The module that is imported from, as written between the quotes.
    pub src: String,
    /// `import type { ... }`
    pub type_only: bool,
}

/// For each framework factory, the local name it was imported under from
/// the framework package itself.
pub struct VueResolvedImports {
    pub ref_import: Option<String>,
    pub computed: Option<String>,
    pub reactive: Option<String>,
}

pub open spec fn opt_view(o: Option<String>) -> Option<Seq<char>> {
    match o {
        Some(s) => Some(s@),
        None => None,
    }
}

/// The factory slots as names.
pub struct VueImportsView {
    pub ref_import: Option<Seq<char>>,
    pub computed: Option<Seq<char>>,
    pub reactive: Option<Seq<char>>,
}

impl VueResolvedImports {
    pub open spec fn view(&self) -> VueImportsView {
        VueImportsView {
            ref_import: opt_view(self.ref_import),
            computed: opt_view(self.computed),
            reactive: opt_view(self.reactive),
        }
    }

    /// No factory imported yet.
    pub fn new() -> (r: VueResolvedImports)
        ensures
            r.view() == (VueImportsView { ref_import: None, computed: None, reactive: None }),
    {
        VueResolvedImports { ref_import: None, computed: None, reactive: None }
    }
}

/// The framework package's name.
pub open spec fn vue_package() -> Seq<char> {
    "vue"@
}

pub open spec fn spec_local(s: ImportSpecifier) -> Seq<char> {
    match s {
        ImportSpecifier::Named { local, imported: _, is_type_only: _ } => local@,
        ImportSpecifier::Default { local } => local@,
        ImportSpecifier::Namespace { local } => local@,
    }
}

/// Whether a specifier imports a value rather than only a type.
pub open spec fn is_value_specifier(s: ImportSpecifier) -> bool {
    match s {
        ImportSpecifier::Named { local: _, imported: _, is_type_only } => !is_type_only,
        _ => true,
    }
}

/// The local names that the value specifiers among `ss` bring in, in order.
pub open spec fn value_locals(ss: Seq<ImportSpecifier>) -> Seq<Seq<char>>
    decreases ss.len(),
{
    if ss.len() == 0 {
        seq![]
    } else if is_value_specifier(ss.last()) {
        value_locals(ss.drop_last()).push(spec_local(ss.last()))
    } else {
        value_locals(ss.drop_last())
    }
}

/// The names that an import declaration adds to the import list: every value
/// import, from whichever module; nothing for `import type`.
pub open spec fn imported_locals(d: ImportDecl) -> Seq<Seq<char>> {
    if d.type_only {
        seq![]
    } else {
        value_locals(d.specifiers@)
    }
}

/// The factory slots after one specifier of an import from the framework package.
pub open spec fn record_vue_specifier(v: VueImportsView, s: ImportSpecifier) -> VueImportsView {
    match s {
        ImportSpecifier::Named { local, imported, is_type_only } => {
            let name = match imported {
                Some(i) => i@,
                None => local@,
            };
            if is_type_only {
                v
            } else if name == "ref"@ {
                VueImportsView { ref_import: Some(local@), ..v }
            } else if name == "computed"@ {
                VueImportsView { computed: Some(local@), ..v }
            } else if name == "reactive"@ {
                VueImportsView { reactive: Some(local@), ..v }
            } else {
                v
            }
        },
        _ => v,
    }
}

pub open spec fn record_vue_specifiers(v: VueImportsView, ss: Seq<ImportSpecifier>) -> VueImportsView
    decreases ss.len(),
{
    if ss.len() == 0 {
        v
    } else {
        record_vue_specifier(record_vue_specifiers(v, ss.drop_last()), ss.last())
    }
}

/// The factory slots after an import declaration: only a value import whose
/// source is exactly the framework package fills a slot.
pub open spec fn record_vue_imports(v: VueImportsView, d: ImportDecl) -> VueImportsView {
    if !d.type_only && d.src@ == vue_package() {
        record_vue_specifiers(v, d.specifiers@)
    } else {
        v
    }
}

fn str_to_string(s: &str) -> (r: String)
    ensures
        r@ == s@,
{
    String::from_str(s)
}

/// Records the value imports of `import_decl` in `out`, and in `vue_imports`
/// the local names of the framework factories it imports from the framework.
pub fn collect_imports(
    import_decl: &ImportDecl,
    out: &mut Vec<String>,
    vue_imports: &mut VueResolvedImports,
)
    ensures
        names_of(final(out)@) == names_of(old(out)@) + imported_locals(*import_decl),
        final(vue_imports).view() == record_vue_imports(old(vue_imports).view(), *import_decl),
{
    if import_decl.type_only {
        assert(names_of(out@) =~= names_of(out@) + seq![]);
        return;
    }
    let is_from_vue = import_decl.src == str_to_string("vue");
    let name_ref = str_to_string("ref");
    let name_computed = str_to_string("computed");
    let name_reactive = str_to_string("reactive");
    let ghost start_out = names_of(out@);
    let ghost start_vue = vue_imports.view();
    let ss = &import_decl.specifiers;
    let mut k: usize = 0;
    while k < ss.len()
        invariant
            0 <= k <= ss.len(),
            *ss == import_decl.specifiers,
            !import_decl.type_only,
            is_from_vue == (import_decl.src@ == vue_package()),
            name_ref@ == "ref"@,
            name_computed@ == "computed"@,
            name_reactive@ == "reactive"@,
            names_of(out@) == start_out + value_locals(ss@.subrange(0, k as int)),
            vue_imports.view() == if is_from_vue {
                record_vue_specifiers(start_vue, ss@.subrange(0, k as int))
            } else {
                start_vue
            },
        decreases ss.len() - k,
    {
        let ghost pre = ss@.subrange(0, k + 1);
        assert(pre.drop_last() =~= ss@.subrange(0, k as int));
        assert(pre.last() == ss@[k as int]);
        let ghost before = out@;
        match &ss[k] {
            ImportSpecifier::Named { local, imported, is_type_only } => {
                if !*is_type_only {
                    if is_from_vue {
                        let name = match imported {
                            Some(i) => i,
                            None => local,
                        };
                        if *name == name_ref {
                            vue_imports.ref_import = Some(local.clone());
                        } else if *name == name_computed {
                            vue_imports.computed = Some(local.clone());
                        } else if *name == name_reactive {
                            vue_imports.reactive = Some(local.clone());
                        }
                    }
                    out.push(local.clone());
                    assert(names_of(out@) =~= names_of(before).push(local@));
                }
            },
            ImportSpecifier::Default { local } => {
                out.push(local.clone());
                assert(names_of(out@) =~= names_of(before).push(local@));
            },
            ImportSpecifier::Namespace { local } => {
                out.push(local.clone());
                assert(names_of(out@) =~= names_of(before).push(local@));
            },
        }
        k = k + 1;
    }
    assert(ss@.subrange(0, ss.len() as int) =~= ss@);
}

/// A statement of the setup script.
pub enum Stmt {
    Expr(Expr),
    Decl(Decl),
    /// Any other statement, as written; it declares nothing.
    Other(String),
}

pub enum Decl {
    Var(VarDecl),
    TsEnum(TsEnumDecl),
    /// Any other declaration, as written.
    Other(String),
}

#[derive(Clone, Copy, Debug, PartialEq, Eq, Structural)]
pub enum VarDeclKind {
    Const,
    Let,
    Var,
}

pub struct VarDecl {
    pub kind: VarDeclKind,
    pub decls: Vec<VarDeclarator>,
}

/// `name = init`
pub struct VarDeclarator {
    pub name: String,
    pub init: Option<Expr>,
}

/// `enum`, `const enum`, `declare enum` or `declare const enum`.
pub struct TsEnumDecl {
    pub id: String,
    pub is_const: bool,
    pub declare: bool,
    pub members: Vec<String>,
}

/// The name of the function that `e` calls, where `e` calls an identifier.
pub open spec fn callee_name(e: Expr) -> Option<Seq<char>> {
    match e {
        Expr::Call { callee, args: _ } => match *callee {
            Expr::Ident(n) => Some(n@),
            _ => None,
        },
        _ => None,
    }
}

pub open spec fn init_callee(init: Option<Expr>) -> Option<Seq<char>> {
    match init {
        Some(e) => callee_name(e),
        None => None,
    }
}

pub open spec fn is_factory_name(n: Seq<char>) -> bool {
    n == "ref"@ || n == "computed"@ || n == "reactive"@
}

/// The kind of a binding declared as `kind name = init`: every `let` or
/// `var` binding is `SetupLet`; a `const` is classified by the function its
/// initializer calls.
pub open spec fn classify(kind: VarDeclKind, init: Option<Expr>, vue: VueImportsView) -> BindingTypes {
    if kind != VarDeclKind::Const {
        BindingTypes::SetupLet
    } else {
        match init_callee(init) {
            Some(n) => if vue.ref_import == Some(n) || vue.computed == Some(n) {
                BindingTypes::SetupRef
            } else if vue.reactive == Some(n) {
                BindingTypes::SetupReactiveConst
            } else if is_factory_name(n) {
                BindingTypes::SetupMaybeRef
            } else {
                BindingTypes::SetupConst
            },
            None => BindingTypes::SetupConst,
        }
    }
}

/// The bindings of the declarators `ds`, in order.
pub open spec fn declarator_bindings(kind: VarDeclKind, ds: Seq<VarDeclarator>, vue: VueImportsView) -> Seq<
    (Seq<char>, BindingTypes),
>
    decreases ds.len(),
{
    if ds.len() == 0 {
        seq![]
    } else {
        declarator_bindings(kind, ds.drop_last(), vue).push(
            (ds.last().name@, classify(kind, ds.last().init, vue)),
        )
    }
}

/// The bindings that a statement declares: one per declarator, one for an
/// enum (its members are not bindings), none otherwise.
pub open spec fn stmt_bindings(stmt: Stmt, vue: VueImportsView) -> Seq<(Seq<char>, BindingTypes)> {
    match stmt {
        Stmt::Decl(Decl::Var(v)) => declarator_bindings(v.kind, v.decls@, vue),
        Stmt::Decl(Decl::TsEnum(e)) => seq![(e.id@, BindingTypes::LiteralConst)],
        _ => seq![],
    }
}

/// The component's descriptor fields that compiler macros declare.
pub struct SfcExportedObjectHelper {
    /// The arguments of `defineProps`, once called.
    pub props: Option<Vec<Expr>>,
    /// The arguments of `defineEmits`, once called.
    pub emits: Option<Vec<Expr>>,
    /// Whether `defineExpose` was called.
    pub exposes: bool,
    /// The name of each model that `defineModel` declares.
    pub models: Vec<String>,
    /// The entries of `defineOptions` objects, spliced into the descriptor.
    pub untyped_fields: Vec<PropOrSpread>,
}

pub open spec fn opt_args_view(o: Option<Vec<Expr>>) -> Option<Seq<Expr>> {
    match o {
        Some(v) => Some(v@),
        None => None,
    }
}

pub struct HelperView {
    pub props: Option<Seq<Expr>>,
    pub emits: Option<Seq<Expr>>,
    pub exposes: bool,
    pub models: Seq<Seq<char>>,
    pub untyped_fields: Seq<PropOrSpread>,
}

impl SfcExportedObjectHelper {
    pub open spec fn view(&self) -> HelperView {
        HelperView {
            props: opt_args_view(self.props),
            emits: opt_args_view(self.emits),
            exposes: self.exposes,
            models: names_of(self.models@),
            untyped_fields: self.untyped_fields@,
        }
    }

    /// Nothing declared yet.
    pub fn new() -> (r: SfcExportedObjectHelper)
        ensures
            r.view() == (HelperView {
                props: None,
                emits: None,
                exposes: false,
                models: seq![],
                untyped_fields: seq![],
            }),
    {
        let r = SfcExportedObjectHelper {
            props: None,
            emits: None,
            exposes: false,
            models: Vec::new(),
            untyped_fields: Vec::new(),
        };
        assert(r.view().models =~= seq![]);
        r
    }
}

/// The compiler macros.
#[derive(Clone, Copy, Debug, PartialEq, Eq, Structural)]
pub enum MacroKind {
    DefineProps,
    DefineEmits,
    DefineExpose,
    DefineModel,
    DefineOptions,
}

pub open spec fn macro_of(n: Seq<char>) -> Option<MacroKind> {
    if n == "defineProps"@ {
        Some(MacroKind::DefineProps)
    } else if n == "defineEmits"@ {
        Some(MacroKind::DefineEmits)
    } else if n == "defineExpose"@ {
        Some(MacroKind::DefineExpose)
    } else if n == "defineModel"@ {
        Some(MacroKind::DefineModel)
    } else if n == "defineOptions"@ {
        Some(MacroKind::DefineOptions)
    } else {
        None
    }
}

/// The entries of an object literal given as first argument.
pub open spec fn options_entries(args: Seq<Expr>) -> Seq<PropOrSpread> {
    if args.len() > 0 {
        match args[0] {
            Expr::Object(props) => props@,
            _ => seq![],
        }
    } else {
        seq![]
    }
}

/// The name of the model that `defineModel(args)` declares: a string given
/// as first argument, else `modelValue`.
pub open spec fn model_name(args: Seq<Expr>) -> Seq<char> {
    if args.len() > 0 && args[0] is Str {
        args[0]->Str_0@
    } else {
        "modelValue"@
    }
}

/// The descriptor fields after a call of macro `m` with `args`.
pub open spec fn apply_macro(h: HelperView, m: MacroKind, args: Seq<Expr>) -> HelperView {
    match m {
        MacroKind::DefineProps => HelperView { props: Some(args), ..h },
        MacroKind::DefineEmits => HelperView { emits: Some(args), ..h },
        MacroKind::DefineExpose => HelperView { exposes: true, ..h },
        MacroKind::DefineModel => HelperView { models: h.models.push(model_name(args)), ..h },
        MacroKind::DefineOptions => HelperView {
            untyped_fields: h.untyped_fields + options_entries(args),
            ..h
        },
    }
}

pub open spec fn call_args(e: Expr) -> Seq<Expr> {
    match e {
        Expr::Call { callee: _, args } => args@,
        _ => seq![],
    }
}

/// The macro that an initializer calls, if any.
pub open spec fn init_macro(init: Option<Expr>) -> Option<MacroKind> {
    match init_callee(init) {
        Some(n) => macro_of(n),
        None => None,
    }
}

/// The descriptor fields after the macros called by the declarators `ds`.
pub open spec fn declarator_macros(h: HelperView, ds: Seq<VarDeclarator>) -> HelperView
    decreases ds.len(),
{
    if ds.len() == 0 {
        h
    } else {
        let prev = declarator_macros(h, ds.drop_last());
        match init_macro(ds.last().init) {
            Some(m) => apply_macro(prev, m, call_args(ds.last().init->Some_0)),
            None => prev,
        }
    }
}

/// The macro that an expression statement calls, if any.
pub open spec fn stmt_macro(stmt: Stmt) -> Option<MacroKind> {
    match stmt {
        Stmt::Expr(e) => match callee_name(e) {
            Some(n) => macro_of(n),
            None => None,
        },
        _ => None,
    }
}

/// The descriptor fields after the macros that a statement calls.
pub open spec fn stmt_macros(h: HelperView, stmt: Stmt) -> HelperView {
    match stmt {
        Stmt::Expr(e) => match stmt_macro(stmt) {
            Some(m) => apply_macro(h, m, call_args(e)),
            None => h,
        },
        Stmt::Decl(Decl::Var(v)) => declarator_macros(h, v.decls@),
        _ => h,
    }
}

/// Whether `e` is the identifier `name`.
pub open spec fn is_ident(e: Expr, name: Seq<char>) -> bool {
    e is Ident && e->Ident_0@ == name
}

/// Whether `e` is what the setup function holds in place of the call
/// `m(args)`: `__props` and `__emit` for the properties and the events,
/// `_useModel(__props, name)` for a model, and `undefined` for the macros
/// that return nothing.
pub open spec fn is_macro_result(m: MacroKind, args: Seq<Expr>, e: Expr) -> bool {
    match m {
        MacroKind::DefineProps => is_ident(e, "__props"@),
        MacroKind::DefineEmits => is_ident(e, "__emit"@),
        MacroKind::DefineModel => match e {
            Expr::Call { callee, args: call_args } => {
                &&& is_ident(*callee, "_useModel"@)
                &&& call_args@.len() == 2
                &&& is_ident(call_args@[0], "__props"@)
                &&& call_args@[1] is Str
                &&& call_args@[1]->Str_0@ == model_name(args)
            },
            _ => false,
        },
        _ => is_ident(e, "undefined"@),
    }
}

/// `after` is declarator `before` with a macro initializer replaced by what
/// holds the macro's result.
pub open spec fn declarator_rewritten(before: VarDeclarator, after: VarDeclarator) -> bool {
    &&& after.name == before.name
    &&& match init_macro(before.init) {
        Some(m) => match after.init {
            Some(e) => is_macro_result(m, call_args(before.init->Some_0), e),
            None => false,
        },
        None => after.init == before.init,
    }
}

/// What becomes of a statement in the setup function's body: a macro
/// statement leaves it, a declaration stays with its macro initializers
/// rewritten, and anything else stays as it is.
pub open spec fn stmt_output(before: Stmt, after: Option<Stmt>) -> bool {
    if stmt_macro(before) is Some {
        after is None
    } else {
        match before {
            Stmt::Decl(Decl::Var(v)) => match after {
                Some(Stmt::Decl(Decl::Var(w))) => {
                    &&& w.kind == v.kind
                    &&& w.decls@.len() == v.decls@.len()
                    &&& forall|i: int|
                        0 <= i < v.decls@.len() ==> declarator_rewritten(
                            #[trigger] v.decls@[i],
                            w.decls@[i],
                        )
                },
                _ => false,
            },
            _ => after == Some(before),
        }
    }
}

fn macro_of_name(n: &String) -> (r: Option<MacroKind>)
    ensures
        r == macro_of(n@),
{
    if *n == str_to_string("defineProps") {
        Some(MacroKind::DefineProps)
    } else if *n == str_to_string("defineEmits") {
        Some(MacroKind::DefineEmits)
    } else if *n == str_to_string("defineExpose") {
        Some(MacroKind::DefineExpose)
    } else if *n == str_to_string("defineModel") {
        Some(MacroKind::DefineModel)
    } else if *n == str_to_string("defineOptions") {
        Some(MacroKind::DefineOptions)
    } else {
        None
    }
}

fn slot_is(slot: &Option<String>, n: &String) -> (r: bool)
    ensures
        r == (opt_view(*slot) == Some(n@)),
{
    match slot {
        Some(s) => *s == *n,
        None => false,
    }
}

/// The kind of a binding declared as `kind name = init`.
fn classify_declarator(kind: VarDeclKind, init: &Option<Expr>, vue_imports: &VueResolvedImports) -> (r:
    BindingTypes)
    ensures
        r == classify(kind, *init, vue_imports.view()),
{
    match kind {
        VarDeclKind::Const => {},
        _ => {
            return BindingTypes::SetupLet;
        },
    }
    match init {
        Some(Expr::Call { callee, args: _ }) => match &**callee {
            Expr::Ident(n) => {
                if slot_is(&vue_imports.ref_import, n) || slot_is(&vue_imports.computed, n) {
                    BindingTypes::SetupRef
                } else if slot_is(&vue_imports.reactive, n) {
                    BindingTypes::SetupReactiveConst
                } else if *n == str_to_string("ref") || *n == str_to_string("computed") || *n
                    == str_to_string("reactive") {
                    BindingTypes::SetupMaybeRef
                } else {
                    BindingTypes::SetupConst
                }
            },
            _ => BindingTypes::SetupConst,
        },
        _ => BindingTypes::SetupConst,
    }
}

fn model_name_of(args: &Vec<Expr>) -> (r: String)
    ensures
        r@ == model_name(args@),
{
    if args.len() > 0 {
        match &args[0] {
            Expr::Str(name) => {
                return name.clone();
            },
            _ => {},
        }
    }
    str_to_string("modelValue")
}

/// What the setup function holds in place of the call `m(args)`.
fn macro_result(m: MacroKind, args: &Vec<Expr>) -> (r: Expr)
    ensures
        is_macro_result(m, args@, r),
{
    match m {
        MacroKind::DefineProps => Expr::Ident(str_to_string("__props")),
        MacroKind::DefineEmits => Expr::Ident(str_to_string("__emit")),
        MacroKind::DefineModel => Expr::Call {
            callee: Box::new(Expr::Ident(str_to_string("_useModel"))),
            args: vec![Expr::Ident(str_to_string("__props")), Expr::Str(model_name_of(args))],
        },
        _ => Expr::Ident(str_to_string("undefined")),
    }
}

/// Records the macro call `m(args)` in the descriptor fields.
fn apply_macro_call(helper: &mut SfcExportedObjectHelper, m: MacroKind, args: Vec<Expr>)
    ensures
        final(helper).view() == apply_macro(old(helper).view(), m, args@),
{
    match m {
        MacroKind::DefineProps => {
            helper.props = Some(args);
        },
        MacroKind::DefineEmits => {
            helper.emits = Some(args);
        },
        MacroKind::DefineExpose => {
            helper.exposes = true;
        },
        MacroKind::DefineModel => {
            let name = model_name_of(&args);
            let ghost before = helper.models@;
            helper.models.push(name);
            assert(names_of(helper.models@) =~= names_of(before).push(model_name(args@)));
        },
        MacroKind::DefineOptions => {
            let ghost a = args@;
            let mut args = args;
            if args.len() > 0 {
                let first = args.remove(0);
                assert(first == a[0]);
                match first {
                    Expr::Object(props) => {
                        let mut props = props;
                        let ghost entries = props@;
                        helper.untyped_fields.append(&mut props);
                        assert(helper.untyped_fields@ =~= old(helper).untyped_fields@ + entries);
                    },
                    _ => {
                        assert(helper.untyped_fields@ =~= old(helper).untyped_fields@ + seq![]);
                    },
                }
            } else {
                assert(helper.untyped_fields@ =~= old(helper).untyped_fields@ + seq![]);
            }
            assert(helper.view() =~= apply_macro(old(helper).view(), m, a));
        },
    }
}

/// Classifies the bindings that `stmt` declares and appends them to
/// `setup_bindings`, records the compiler macros it calls in
/// `sfc_object_helper`, and returns what stays of it in the setup function.
pub fn transform_and_record_stmt(
    stmt: Stmt,
    setup_bindings: &mut Vec<SetupBinding>,
    vue_imports: &VueResolvedImports,
    sfc_object_helper: &mut SfcExportedObjectHelper,
) -> (r: Option<Stmt>)
    ensures
        bindings_view(final(setup_bindings)@) == bindings_view(old(setup_bindings)@) + stmt_bindings(
            stmt,
            vue_imports.view(),
        ),
        final(sfc_object_helper).view() == stmt_macros(old(sfc_object_helper).view(), stmt),
        stmt_output(stmt, r),
{
    let ghost b0 = bindings_view(setup_bindings@);
    match stmt {
        Stmt::Expr(e) => {
            match e {
                Expr::Call { callee, args } => {
                    let m = match &*callee {
                        Expr::Ident(n) => macro_of_name(n),
                        _ => None,
                    };
                    match m {
                        Some(m) => {
                            apply_macro_call(sfc_object_helper, m, args);
                            assert(bindings_view(setup_bindings@) =~= b0 + seq![]);
                            None
                        },
                        None => {
                            assert(bindings_view(setup_bindings@) =~= b0 + seq![]);
                            Some(Stmt::Expr(Expr::Call { callee, args }))
                        },
                    }
                },
                other => {
                    assert(bindings_view(setup_bindings@) =~= b0 + seq![]);
                    Some(Stmt::Expr(other))
                },
            }
        },
        Stmt::Decl(Decl::Var(v)) => {
            let VarDecl { kind, decls } = v;
            let ghost orig = decls@;
            let ghost h0 = sfc_object_helper.view();
            let mut rest = decls;
            let mut rewritten: Vec<VarDeclarator> = Vec::new();
            while rest.len() > 0
                invariant
                    rewritten@.len() + rest@.len() == orig.len(),
                    rest@ == orig.subrange(rewritten@.len() as int, orig.len() as int),
                    bindings_view(setup_bindings@) == b0 + declarator_bindings(
                        kind,
                        orig.subrange(0, rewritten@.len() as int),
                        vue_imports.view(),
                    ),
                    sfc_object_helper.view() == declarator_macros(
                        h0,
                        orig.subrange(0, rewritten@.len() as int),
                    ),
                    forall|i: int|
                        0 <= i < rewritten@.len() ==> declarator_rewritten(
                            #[trigger] orig[i],
                            rewritten@[i],
                        ),
                decreases rest@.len(),
            {
                let ghost k = rewritten@.len() as int;
                let d = rest.remove(0);
                assert(d == orig[k]);
                assert(orig.subrange(0, k + 1).drop_last() =~= orig.subrange(0, k));
                let VarDeclarator { name, init } = d;
                let ghost bv = setup_bindings@;
                setup_bindings.push(
                    SetupBinding(name.clone(), classify_declarator(kind, &init, vue_imports)),
                );
                assert(bindings_view(setup_bindings@) =~= bindings_view(bv).push(
                    (name@, classify(kind, init, vue_imports.view())),
                ));
                let new_init = match init {
                    Some(Expr::Call { callee, args }) => {
                        let m = match &*callee {
                            Expr::Ident(n) => macro_of_name(n),
                            _ => None,
                        };
                        match m {
                            Some(m) => {
                                let result = macro_result(m, &args);
                                apply_macro_call(sfc_object_helper, m, args);
                                Some(result)
                            },
                            None => Some(Expr::Call { callee, args }),
                        }
                    },
                    other => other,
                };
                rewritten.push(VarDeclarator { name, init: new_init });
                assert(rest@ =~= orig.subrange(rewritten@.len() as int, orig.len() as int));
            }
            assert(orig.subrange(0, orig.len() as int) =~= orig);
            Some(Stmt::Decl(Decl::Var(VarDecl { kind, decls: rewritten })))
        },
        Stmt::Decl(Decl::TsEnum(e)) => {
            setup_bindings.push(SetupBinding(e.id.clone(), BindingTypes::LiteralConst));
            assert(bindings_view(setup_bindings@) =~= b0 + seq![(e.id@, BindingTypes::LiteralConst)]);
            Some(Stmt::Decl(Decl::TsEnum(e)))
        },
        other => {
            assert(bindings_view(setup_bindings@) =~= b0 + seq![]);
            Some(other)
        },
    }
}

/// Whether `value` is the first of `args`, or an empty object where there is none.
pub open spec fn first_arg_or_empty(args: Seq<Expr>, value: Expr) -> bool {
    if args.len() > 0 {
        value == args[0]
    } else {
        value is Object && value->Object_0@.len() == 0
    }
}

/// Whether `p` is the entry `key: value` of a macro called with `args`.
pub open spec fn is_decl_entry(key: Seq<char>, args: Seq<Expr>, p: PropOrSpread) -> bool {
    match p {
        PropOrSpread::KeyValue { key: PropName::Ident(k), value } => k@ == key && first_arg_or_empty(
            args,
            *value,
        ),
        _ => false,
    }
}

fn decl_entry(key: &str, args: Vec<Expr>) -> (r: PropOrSpread)
    ensures
        is_decl_entry(key@, args@, r),
{
    let mut args = args;
    let value = if args.len() > 0 {
        args.remove(0)
    } else {
        Expr::Object(Vec::new())
    };
    PropOrSpread::KeyValue { key: PropName::Ident(str_to_string(key)), value: Box::new(value) }
}

/// Appends to `dest` the descriptor fields of `sfc_helper`: `emits` and
/// `props` where declared, then the fields of `defineOptions`.
pub fn merge_sfc_helper(sfc_helper: SfcExportedObjectHelper, dest: &mut Vec<PropOrSpread>)
    ensures
        ({
            let h = sfc_helper.view();
            let n0 = old(dest)@.len();
            let ne: int = if h.emits is Some { 1 } else { 0 };
            let np: int = if h.props is Some { 1 } else { 0 };
            &&& final(dest)@.len() == n0 + ne + np + h.untyped_fields.len()
            &&& final(dest)@.subrange(0, n0 as int) == old(dest)@
            &&& h.emits is Some ==> is_decl_entry("emits"@, h.emits->Some_0, final(dest)@[n0 as int])
            &&& h.props is Some ==> is_decl_entry("props"@, h.props->Some_0, final(dest)@[n0 + ne])
            &&& final(dest)@.subrange(n0 + ne + np, final(dest)@.len() as int) == h.untyped_fields
        }),
{
    let ghost h = sfc_helper.view();
    let ghost d0 = dest@;
    let SfcExportedObjectHelper { props, emits, exposes: _, models: _, untyped_fields } = sfc_helper;
    if let Some(args) = emits {
        dest.push(decl_entry("emits", args));
    }
    let ghost d1 = dest@;
    if let Some(args) = props {
        dest.push(decl_entry("props", args));
    }
    let ghost d2 = dest@;
    let mut fields = untyped_fields;
    dest.append(&mut fields);
    assert(dest@.subrange(0, d0.len() as int) =~= d0);
    assert(dest@.subrange(d2.len() as int, dest@.len() as int) =~= h.untyped_fields);
    assert(h.emits is Some ==> dest@[d0.len() as int] == d1[d0.len() as int]);
}

/// The key or element that declares model `m`: its name among the
/// properties, `update:` and its name among the events.
pub open spec fn model_key(is_props: bool, m: Seq<char>) -> Seq<char> {
    if is_props {
        m
    } else {
        "update:"@ + m
    }
}

/// Whether `p` is the object entry that declares model `m`: `'m': {}` among
/// the properties, `'update:m': null` among the events.
pub open spec fn is_model_entry(is_props: bool, m: Seq<char>, p: PropOrSpread) -> bool {
    match p {
        PropOrSpread::KeyValue { key: PropName::Str(k), value } => {
            &&& k@ == model_key(is_props, m)
            &&& if is_props {
                *value is Object && value->Object_0@.len() == 0
            } else {
                *value is Lit && value->Lit_0@ == "null"@
            }
        },
        _ => false,
    }
}

/// Whether `e` is the array element that declares model `m`.
pub open spec fn is_model_element(is_props: bool, m: Seq<char>, e: Option<Expr>) -> bool {
    match e {
        Some(Expr::Str(k)) => k@ == model_key(is_props, m),
        _ => false,
    }
}

/// `after` is `before` followed by one entry per model, in order.
pub open spec fn entries_extended(
    before: Seq<PropOrSpread>,
    after: Seq<PropOrSpread>,
    models: Seq<Seq<char>>,
    is_props: bool,
) -> bool {
    &&& after.len() == before.len() + models.len()
    &&& after.subrange(0, before.len() as int) == before
    &&& forall|i: int|
        0 <= i < models.len() ==> is_model_entry(is_props, models[i], #[trigger] after[before.len() + i])
}

/// `after` is `before` followed by one element per model, in order.
pub open spec fn elements_extended(
    before: Seq<Option<Expr>>,
    after: Seq<Option<Expr>>,
    models: Seq<Seq<char>>,
    is_props: bool,
) -> bool {
    &&& after.len() == before.len() + models.len()
    &&& after.subrange(0, before.len() as int) == before
    &&& forall|i: int|
        0 <= i < models.len() ==> is_model_element(is_props, models[i], #[trigger] after[before.len() + i])
}

/// Whether the declaration `after` is `before` with the models added: to an
/// object or array literal given as first argument, or, where nothing was
/// declared, as a new object (properties) or array (events). A first
/// argument of another shape, such as a variable, is kept as it is.
pub open spec fn declaration_extended(
    before: Option<Seq<Expr>>,
    after: Option<Seq<Expr>>,
    models: Seq<Seq<char>>,
    is_props: bool,
) -> bool {
    let b = match before {
        Some(b) => b,
        None => seq![],
    };
    match after {
        None => false,
        Some(a) => if b.len() == 0 {
            &&& a.len() == 1
            &&& if is_props {
                a[0] is Object && entries_extended(seq![], a[0]->Object_0@, models, is_props)
            } else {
                a[0] is Array && elements_extended(seq![], a[0]->Array_0@, models, is_props)
            }
        } else {
            &&& a.len() == b.len()
            &&& a.subrange(1, a.len() as int) == b.subrange(1, b.len() as int)
            &&& match b[0] {
                Expr::Object(es) => a[0] is Object && entries_extended(
                    es@,
                    a[0]->Object_0@,
                    models,
                    is_props,
                ),
                Expr::Array(els) => a[0] is Array && elements_extended(
                    els@,
                    a[0]->Array_0@,
                    models,
                    is_props,
                ),
                _ => a[0] == b[0],
            }
        },
    }
}

/// Whether `after` is `before` with each model expanded into a property and
/// an `update:` event. Without models nothing changes.
pub open spec fn postprocessed(before: HelperView, after: HelperView) -> bool {
    if before.models.len() == 0 {
        after == before
    } else {
        &&& after.exposes == before.exposes
        &&& after.models == before.models
        &&& after.untyped_fields == before.untyped_fields
        &&& declaration_extended(before.props, after.props, before.models, true)
        &&& declaration_extended(before.emits, after.emits, before.models, false)
    }
}

fn model_key_of(is_props: bool, m: &String) -> (r: String)
    ensures
        r@ == model_key(is_props, m@),
{
    if is_props {
        m.clone()
    } else {
        let mut k = str_to_string("update:");
        k.append(m.as_str());
        k
    }
}

fn push_model_entries(entries: &mut Vec<PropOrSpread>, models: &Vec<String>, is_props: bool)
    ensures
        entries_extended(old(entries)@, final(entries)@, names_of(models@), is_props),
{
    let ghost start = entries@;
    let mut k: usize = 0;
    while k < models.len()
        invariant
            0 <= k <= models.len(),
            entries@.len() == start.len() + k,
            entries@.subrange(0, start.len() as int) == start,
            forall|i: int|
                0 <= i < k ==> is_model_entry(is_props, names_of(models@)[i], #[trigger] entries@[start.len() + i]),
        decreases models.len() - k,
    {
        let key = PropName::Str(model_key_of(is_props, &models[k]));
        let value = if is_props {
            Expr::Object(Vec::new())
        } else {
            Expr::Lit(str_to_string("null"))
        };
        let ghost before = entries@;
        entries.push(PropOrSpread::KeyValue { key, value: Box::new(value) });
        assert(entries@.subrange(0, start.len() as int) =~= before.subrange(0, start.len() as int));
        assert forall|i: int| 0 <= i < k + 1 implies is_model_entry(is_props, names_of(models@)[i], #[trigger] entries@[start.len() + i]) by {
            if i < k {
                assert(entries@[start.len() + i] == before[start.len() + i]);
            }
        }
        k = k + 1;
    }
}

fn push_model_elements(elements: &mut Vec<Option<Expr>>, models: &Vec<String>, is_props: bool)
    ensures
        elements_extended(old(elements)@, final(elements)@, names_of(models@), is_props),
{
    let ghost start = elements@;
    let mut k: usize = 0;
    while k < models.len()
        invariant
            0 <= k <= models.len(),
            elements@.len() == start.len() + k,
            elements@.subrange(0, start.len() as int) == start,
            forall|i: int|
                0 <= i < k ==> is_model_element(is_props, names_of(models@)[i], #[trigger] elements@[start.len() + i]),
        decreases models.len() - k,
    {
        let ghost before = elements@;
        elements.push(Some(Expr::Str(model_key_of(is_props, &models[k]))));
        assert(elements@.subrange(0, start.len() as int) =~= before.subrange(0, start.len() as int));
        assert forall|i: int| 0 <= i < k + 1 implies is_model_element(is_props, names_of(models@)[i], #[trigger] elements@[start.len() + i]) by {
            if i < k {
                assert(elements@[start.len() + i] == before[start.len() + i]);
            }
        }
        k = k + 1;
    }
}

/// Adds the models to a property (`is_props`) or event declaration.
fn extend_declaration(declaration: Option<Vec<Expr>>, models: &Vec<String>, is_props: bool) -> (r:
    Option<Vec<Expr>>)
    ensures
        declaration_extended(opt_args_view(declaration), opt_args_view(r), names_of(models@), is_props),
{
    let mut args = match declaration {
        Some(a) => a,
        None => Vec::new(),
    };
    let ghost b = args@;
    if args.len() == 0 {
        if is_props {
            let mut entries: Vec<PropOrSpread> = Vec::new();
            push_model_entries(&mut entries, models, is_props);
            args.push(Expr::Object(entries));
        } else {
            let mut elements: Vec<Option<Expr>> = Vec::new();
            push_model_elements(&mut elements, models, is_props);
            args.push(Expr::Array(elements));
        }
    } else {
        let first = args.remove(0);
        let extended = match first {
            Expr::Object(entries) => {
                let mut entries = entries;
                push_model_entries(&mut entries, models, is_props);
                Expr::Object(entries)
            },
            Expr::Array(elements) => {
                let mut elements = elements;
                push_model_elements(&mut elements, models, is_props);
                Expr::Array(elements)
            },
            other => other,
        };
        args.insert(0, extended);
        assert(args@.subrange(1, args@.len() as int) =~= b.subrange(1, b.len() as int));
    }
    Some(args)
}

/// Expands each model into a property and an `update:` event.
fn postprocess_macros(helper: &mut SfcExportedObjectHelper)
    ensures
        postprocessed(old(helper).view(), final(helper).view()),
{
    if helper.models.len() > 0 {
        let mut props = None;
        std::mem::swap(&mut props, &mut helper.props);
        helper.props = extend_declaration(props, &helper.models, true);
        let mut emits = None;
        std::mem::swap(&mut emits, &mut helper.emits);
        helper.emits = extend_declaration(emits, &helper.models, false);
    }
}

/// `key: value` in an object pattern.
pub struct KeyValuePatProp {
    pub key: String,
    pub value: String,
}

/// A parameter of the setup function.
pub enum Param {
    Ident(String),
    Object(Vec<KeyValuePatProp>),
}

pub enum ParamView {
    Ident(Seq<char>),
    Object(Seq<(Seq<char>, Seq<char>)>),
}

pub open spec fn param_view(p: Param) -> ParamView {
    match p {
        Param::Ident(n) => ParamView::Ident(n@),
        Param::Object(props) => ParamView::Object(
            props@.map_values(|kv: KeyValuePatProp| (kv.key@, kv.value@)),
        ),
    }
}

pub open spec fn params_view(v: Seq<Param>) -> Seq<ParamView> {
    v.map_values(|p: Param| param_view(p))
}

/// Whether the setup function takes the context parameter.
pub open spec fn has_ctx_param(h: HelperView) -> bool {
    h.emits is Some || h.exposes
}

/// The fields that the context parameter destructures, renamed: `emit` if
/// events were declared, then `expose` if exposure was.
pub open spec fn ctx_fields(h: HelperView) -> Seq<(Seq<char>, Seq<char>)> {
    (if h.emits is Some {
        seq![("emit"@, "__emit"@)]
    } else {
        seq![]
    }) + (if h.exposes {
        seq![("expose"@, "__expose"@)]
    } else {
        seq![]
    })
}

/// The setup function's parameters: the properties first, where properties
/// were declared or the context is needed, then the destructured context.
pub open spec fn setup_params(h: HelperView) -> Seq<ParamView> {
    (if h.props is Some || has_ctx_param(h) {
        seq![ParamView::Ident("__props"@)]
    } else {
        seq![]
    }) + (if has_ctx_param(h) {
        seq![ParamView::Object(ctx_fields(h))]
    } else {
        seq![]
    })
}

/// The parameters of the setup function: `__props` and the context.
pub fn get_setup_fn_params(sfc_object_helper: &SfcExportedObjectHelper) -> (r: Vec<Param>)
    ensures
        params_view(r@) == setup_params(sfc_object_helper.view()),
{
    let has_ctx_param = sfc_object_helper.emits.is_some() || sfc_object_helper.exposes;
    let has_props = sfc_object_helper.props.is_some() || has_ctx_param;
    let mut result: Vec<Param> = Vec::new();
    if has_props {
        result.push(Param::Ident(str_to_string("__props")));
    }
    if has_ctx_param {
        let mut ctx_props: Vec<KeyValuePatProp> = Vec::new();
        if sfc_object_helper.emits.is_some() {
            ctx_props.push(
                KeyValuePatProp { key: str_to_string("emit"), value: str_to_string("__emit") },
            );
        }
        if sfc_object_helper.exposes {
            ctx_props.push(
                KeyValuePatProp { key: str_to_string("expose"), value: str_to_string("__expose") },
            );
        }
        let ghost cv = ctx_props@;
        result.push(Param::Object(ctx_props));
        assert(cv.map_values(|kv: KeyValuePatProp| (kv.key@, kv.value@)) =~= ctx_fields(
            sfc_object_helper.view(),
        ));
    }
    assert(params_view(result@) =~= setup_params(sfc_object_helper.view()));
    result
}

/// The setup function: its parameters and its body.
pub struct Function {
    pub params: Vec<Param>,
    pub body: Vec<Stmt>,
}

pub enum ModuleDecl {
    Import(ImportDecl),
    /// Any other module declaration, as written.
    Other(String),
}

/// A top-level item of the setup script.
pub enum ModuleItem {
    ModuleDecl(ModuleDecl),
    Stmt(Stmt),
}

pub struct Module {
    pub body: Vec<ModuleItem>,
}

/// The setup script of a component.
pub struct SfcScriptBlock {
    pub content: Module,
}

pub struct TransformScriptSetupResult {
    /// The imports and other module declarations of the script, in order.
    pub module_decls: Vec<ModuleDecl>,
    /// The descriptor fields that its macros declare.
    pub sfc_object_helper: SfcExportedObjectHelper,
    /// The setup function made from its statements.
    pub setup_fn: Option<Function>,
}

/// The factory slots after the imports among `items`.
pub open spec fn items_vue_imports(v: VueImportsView, items: Seq<ModuleItem>) -> VueImportsView
    decreases items.len(),
{
    if items.len() == 0 {
        v
    } else {
        let prev = items_vue_imports(v, items.drop_last());
        match items.last() {
            ModuleItem::ModuleDecl(ModuleDecl::Import(d)) => record_vue_imports(prev, d),
            _ => prev,
        }
    }
}

/// The module declarations among `items`, in order.
pub open spec fn items_module_decls(items: Seq<ModuleItem>) -> Seq<ModuleDecl>
    decreases items.len(),
{
    if items.len() == 0 {
        seq![]
    } else {
        let prev = items_module_decls(items.drop_last());
        match items.last() {
            ModuleItem::ModuleDecl(d) => prev.push(d),
            _ => prev,
        }
    }
}

/// The bindings that the statements among `items` declare, in order.
pub open spec fn items_bindings(items: Seq<ModuleItem>, vue: VueImportsView) -> Seq<
    (Seq<char>, BindingTypes),
>
    decreases items.len(),
{
    if items.len() == 0 {
        seq![]
    } else {
        let prev = items_bindings(items.drop_last(), vue);
        match items.last() {
            ModuleItem::Stmt(s) => prev + stmt_bindings(s, vue),
            _ => prev,
        }
    }
}

/// The descriptor fields after the macros of the statements among `items`.
pub open spec fn items_macros(h: HelperView, items: Seq<ModuleItem>) -> HelperView
    decreases items.len(),
{
    if items.len() == 0 {
        h
    } else {
        let prev = items_macros(h, items.drop_last());
        match items.last() {
            ModuleItem::Stmt(s) => stmt_macros(prev, s),
            _ => prev,
        }
    }
}

/// Whether `body` is what stays of the statements among `items`, in order.
pub open spec fn body_output(items: Seq<ModuleItem>, body: Seq<Stmt>) -> bool
    decreases items.len(),
{
    if items.len() == 0 {
        body.len() == 0
    } else {
        match items.last() {
            ModuleItem::Stmt(s) => if stmt_macro(s) is Some {
                body_output(items.drop_last(), body)
            } else {
                &&& body.len() > 0
                &&& stmt_output(s, Some(body.last()))
                &&& body_output(items.drop_last(), body.drop_last())
            },
            _ => body_output(items.drop_last(), body),
        }
    }
}

pub open spec fn empty_helper() -> HelperView {
    HelperView { props: None, emits: None, exposes: false, models: seq![], untyped_fields: seq![] }
}

/// Turns the setup script into its module declarations, the descriptor
/// fields of its macros and the setup function, and appends the bindings it
/// declares to the setup bindings of `scope_helper`. Every import is read before any statement,
/// as imports are hoisted.
pub fn transform_and_record_script_setup(
    script_setup: SfcScriptBlock,
    scope_helper: &mut ScopeHelper,
) -> (r: TransformScriptSetupResult)
    ensures
        ({
            let items = script_setup.content.body@;
            let vue = items_vue_imports(
                VueImportsView { ref_import: None, computed: None, reactive: None },
                items,
            );
            let helper = r.sfc_object_helper.view();
            &&& r.module_decls@ == items_module_decls(items)
            &&& bindings_view(final(scope_helper).setup_bindings@) == bindings_view(
                old(scope_helper).setup_bindings@,
            ) + items_bindings(items, vue)
            &&& final(scope_helper).template_scopes == old(scope_helper).template_scopes
            &&& final(scope_helper).props_vars == old(scope_helper).props_vars
            &&& final(scope_helper).data_vars == old(scope_helper).data_vars
            &&& final(scope_helper).options_vars == old(scope_helper).options_vars
            &&& final(scope_helper).globals == old(scope_helper).globals
            &&& postprocessed(items_macros(empty_helper(), items), helper)
            &&& r.setup_fn is Some
            &&& params_view(r.setup_fn->Some_0.params@) == setup_params(helper)
            &&& body_output(items, r.setup_fn->Some_0.body@)
        }),
{
    let ghost items = script_setup.content.body@;
    let mut vue_imports = VueResolvedImports::new();
    let mut imports: Vec<String> = Vec::new();
    let mut k: usize = 0;
    while k < script_setup.content.body.len()
        invariant
            items == script_setup.content.body@,
            0 <= k <= items.len(),
            vue_imports.view() == items_vue_imports(
                VueImportsView { ref_import: None, computed: None, reactive: None },
                items.subrange(0, k as int),
            ),
        decreases items.len() - k,
    {
        assert(items.subrange(0, k + 1).drop_last() =~= items.subrange(0, k as int));
        match &script_setup.content.body[k] {
            ModuleItem::ModuleDecl(ModuleDecl::Import(import_decl)) => {
                collect_imports(import_decl, &mut imports, &mut vue_imports);
            },
            _ => {},
        }
        k = k + 1;
    }
    assert(items.subrange(0, items.len() as int) =~= items);
    let ghost vue = vue_imports.view();
    let ghost b0 = bindings_view(scope_helper.setup_bindings@);
    let mut module_decls: Vec<ModuleDecl> = Vec::new();
    let mut sfc_object_helper = SfcExportedObjectHelper::new();
    let mut setup_body_stmts: Vec<Stmt> = Vec::new();
    let mut rest = script_setup.content.body;
    let ghost mut done: int = 0;
    while rest.len() > 0
        invariant
            0 <= done <= items.len(),
            rest@ == items.subrange(done, items.len() as int),
            vue_imports.view() == vue,
            module_decls@ == items_module_decls(items.subrange(0, done)),
            bindings_view(scope_helper.setup_bindings@) == b0 + items_bindings(items.subrange(0, done), vue),
            scope_helper.template_scopes == old(scope_helper).template_scopes,
            scope_helper.props_vars == old(scope_helper).props_vars,
            scope_helper.data_vars == old(scope_helper).data_vars,
            scope_helper.options_vars == old(scope_helper).options_vars,
            scope_helper.globals == old(scope_helper).globals,
            sfc_object_helper.view() == items_macros(empty_helper(), items.subrange(0, done)),
            body_output(items.subrange(0, done), setup_body_stmts@),
        decreases rest@.len(),
    {
        let item = rest.remove(0);
        assert(item == items[done]);
        assert(items.subrange(0, done + 1).drop_last() =~= items.subrange(0, done));
        let ghost body_before = setup_body_stmts@;
        match item {
            ModuleItem::ModuleDecl(decl) => {
                module_decls.push(decl);
            },
            ModuleItem::Stmt(stmt) => {
                if let Some(transformed_stmt) = transform_and_record_stmt(
                    stmt,
                    &mut scope_helper.setup_bindings,
                    &vue_imports,
                    &mut sfc_object_helper,
                ) {
                    setup_body_stmts.push(transformed_stmt);
                    assert(setup_body_stmts@.drop_last() =~= body_before);
                }
                assert(bindings_view(scope_helper.setup_bindings@) =~= b0 + items_bindings(
                    items.subrange(0, done + 1),
                    vue,
                ));
            },
        }
        proof {
            done = done + 1;
        }
        assert(rest@ =~= items.subrange(done, items.len() as int));
    }
    assert(items.subrange(0, items.len() as int) =~= items);
    postprocess_macros(&mut sfc_object_helper);
    let params = get_setup_fn_params(&sfc_object_helper);
    let setup_fn = Some(Function { params, body: setup_body_stmts });
    TransformScriptSetupResult { module_decls, sfc_object_helper, setup_fn }
}

/// A declaration made entirely of type imports (`import type { ... }`, or
/// `type` on every specifier) adds nothing to the import list and fills no
/// framework slot, whatever module it names.
pub proof fn lemma_type_imports_contribute_nothing(v: VueImportsView, d: ImportDecl)
    requires
        d.type_only || forall|i: int|
            0 <= i < d.specifiers@.len() ==> !is_value_specifier(#[trigger] d.specifiers@[i]),
    ensures
        imported_locals(d) == Seq::<Seq<char>>::empty(),
        record_vue_imports(v, d) == v,
{
    if !d.type_only {
        lemma_type_specifiers_contribute_nothing(v, d.specifiers@);
    }
}

proof fn lemma_type_specifiers_contribute_nothing(v: VueImportsView, ss: Seq<ImportSpecifier>)
    requires
        forall|i: int| 0 <= i < ss.len() ==> !is_value_specifier(#[trigger] ss[i]),
    ensures
        value_locals(ss) == Seq::<Seq<char>>::empty(),
        record_vue_specifiers(v, ss) == v,
    decreases ss.len(),
{
    if ss.len() > 0 {
        let pre = ss.drop_last();
        assert forall|i: int| 0 <= i < pre.len() implies !is_value_specifier(#[trigger] pre[i]) by {
            assert(pre[i] == ss[i]);
        }
        lemma_type_specifiers_contribute_nothing(v, pre);
        assert(!is_value_specifier(ss[ss.len() - 1]));
    }
}

/// A `const` made by a `ref` or `computed` call is a `SetupRef` only when the
/// callee is the local name under which the factory was imported from
/// exactly the framework package; a call of a factory's name that was not so
/// imported makes a `SetupMaybeRef`. A `let` or `var` binding is `SetupLet`
/// whatever it calls.
pub proof fn lemma_factory_call_classification(
    kind: VarDeclKind,
    init: Option<Expr>,
    vue: VueImportsView,
)
    requires
        init_callee(init) is Some,
    ensures
        kind != VarDeclKind::Const ==> classify(kind, init, vue) == BindingTypes::SetupLet,
        kind == VarDeclKind::Const && (vue.ref_import == init_callee(init) || vue.computed
            == init_callee(init)) ==> classify(
            kind,
            init,
            vue,
        ) == BindingTypes::SetupRef,
        (kind == VarDeclKind::Const && vue.ref_import != init_callee(init) && vue.computed
            != init_callee(init) && vue.reactive != init_callee(init) && is_factory_name(init_callee(init)->Some_0))
            ==> classify(kind, init, vue) == BindingTypes::SetupMaybeRef,
{
}

/// An enum declaration, of any variant, declares exactly one binding: its
/// own name, as a literal constant.
pub proof fn lemma_enum_single_binding(e: TsEnumDecl, vue: VueImportsView)
    ensures
        stmt_bindings(Stmt::Decl(Decl::TsEnum(e)), vue) == seq![(e.id@, BindingTypes::LiteralConst)],
{
}

/// A declaration with several declarators declares one binding per
/// declarator, in source order, each classified on its own.
pub proof fn lemma_declarators_in_order(kind: VarDeclKind, ds: Seq<VarDeclarator>, vue: VueImportsView)
    ensures
        declarator_bindings(kind, ds, vue).len() == ds.len(),
        forall|i: int|
            0 <= i < ds.len() ==> #[trigger] declarator_bindings(kind, ds, vue)[i] == (
                ds[i].name@,
                classify(kind, ds[i].init, vue),
            ),
    decreases ds.len(),
{
    if ds.len() > 0 {
        lemma_declarators_in_order(kind, ds.drop_last(), vue);
        assert forall|i: int|
            0 <= i < ds.len() implies #[trigger] declarator_bindings(kind, ds, vue)[i] == (
            ds[i].name@,
            classify(kind, ds[i].init, vue),
        ) by {
            if i < ds.len() - 1 {
                assert(ds.drop_last()[i] == ds[i]);
            }
        }
    }
}

/// The setup function takes no parameter when nothing is declared; with
/// events or exposure it takes `__props` and then one destructured context
/// whose fields are `emit` (if events) before `expose` (if exposure); it
/// never takes more than two.
pub proof fn lemma_setup_param_shapes(h: HelperView)
    ensures
        setup_params(h).len() <= 2,
        (h.props is None && h.emits is None && !h.exposes) ==> setup_params(h).len() == 0,
        has_ctx_param(h) ==> setup_params(h) == seq![
            ParamView::Ident("__props"@),
            ParamView::Object(ctx_fields(h)),
        ],
        (h.emits is Some && !h.exposes) ==> ctx_fields(h) == seq![("emit"@, "__emit"@)],
        (h.emits is None && h.exposes) ==> ctx_fields(h) == seq![("expose"@, "__expose"@)],
        (h.emits is Some && h.exposes) ==> ctx_fields(h) == seq![
            ("emit"@, "__emit"@),
            ("expose"@, "__expose"@),
        ],
{
    assert(has_ctx_param(h) ==> setup_params(h) =~= seq![
        ParamView::Ident("__props"@),
        ParamView::Object(ctx_fields(h)),
    ]);
    assert((h.emits is Some && !h.exposes) ==> ctx_fields(h) =~= seq![("emit"@, "__emit"@)]);
    assert((h.emits is None && h.exposes) ==> ctx_fields(h) =~= seq![("expose"@, "__expose"@)]);
    assert((h.emits is Some && h.exposes) ==> ctx_fields(h) =~= seq![
        ("emit"@, "__emit"@),
        ("expose"@, "__expose"@),
    ]);
}

} // verus!
