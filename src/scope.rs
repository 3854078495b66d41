//! The template scope tree, the walk that builds it, and the resolver that
//! tells which namespace an identifier of the template belongs to.

use vstd::prelude::*;
use vstd::string::StringExecFns;

use crate::setup::SetupBinding;
use crate::ast::{
    array_bound_names, bound_names, list_bound_names, names_of, object_bound_names,
    prop_bound_names, ElementNode, Expr, Interpolation, Node, PropOrSpread, VSlotDirective,
};

verus! {

/// A lexical scope of the template: the names it declares and its parent.
/// The root scope is its own parent.
pub struct Scope {
    pub variables: Vec<String>,
    pub parent: u32,
}

/// The namespace that an identifier of the template resolves to.
#[derive(Clone, Copy, Debug, PartialEq, Eq, Structural)]
pub enum VarScopeDescriptor {
    Builtin,
    Data,
    Global,
    Props,
    Options,
    Setup,
    Template(u32),
    Unknown,
}

/// The access prefix that generated code writes before a name of each namespace.
pub open spec fn prefix_of(d: VarScopeDescriptor) -> Seq<char> {
    match d {
        VarScopeDescriptor::Builtin => ""@,
        VarScopeDescriptor::Data => "$data."@,
        VarScopeDescriptor::Global => "_ctx."@,
        VarScopeDescriptor::Props => "$props."@,
        VarScopeDescriptor::Options => "$options."@,
        VarScopeDescriptor::Setup => "$setup."@,
        VarScopeDescriptor::Template(_) => ""@,
        VarScopeDescriptor::Unknown => "_ctx."@,
    }
}

impl VarScopeDescriptor {
    pub fn get_prefix(&self) -> (r: &'static str)
        ensures
            r@ == prefix_of(*self),
    {
        match self {
            VarScopeDescriptor::Builtin => "",
            VarScopeDescriptor::Data => "$data.",
            VarScopeDescriptor::Global => "_ctx.",
            VarScopeDescriptor::Props => "$props.",
            VarScopeDescriptor::Options => "$options.",
            VarScopeDescriptor::Setup => "$setup.",
            VarScopeDescriptor::Template(_) => "",
            VarScopeDescriptor::Unknown => "_ctx.",
        }
    }
}

/// The names of the language that no scope can shadow.
pub open spec fn builtin_names() -> Seq<Seq<char>> {
    seq!["true"@, "false"@, "null"@, "undefined"@, "Array"@, "Set"@, "Map"@]
}

pub open spec fn is_builtin(n: Seq<char>) -> bool {
    builtin_names().contains(n)
}

/// Whether one of the bindings of `v` is named `n`.
pub open spec fn has_binding(v: Seq<SetupBinding>, n: Seq<char>) -> bool {
    exists|i: int| 0 <= i < v.len() && (#[trigger] v[i]).0@ == n
}

/// Whether one of the strings of `v` is `n`.
pub open spec fn has_name(v: Seq<String>, n: Seq<char>) -> bool {
    names_of(v).contains(n)
}

/// The innermost scope that declares `n` on the chain from `s`, visiting at
/// most `fuel` scopes. The walk moves to the parent until it reaches a root,
/// a scope that is its own parent.
pub open spec fn chain_lookup_within(scopes: Seq<Scope>, s: u32, n: Seq<char>, fuel: nat) -> Option<
    u32,
>
    decreases fuel,
{
    if fuel == 0 || s >= scopes.len() {
        None
    } else if has_name(scopes[s as int].variables@, n) {
        Some(s)
    } else if scopes[s as int].parent == s {
        None
    } else {
        chain_lookup_within(scopes, scopes[s as int].parent, n, (fuel - 1) as nat)
    }
}

/// The innermost scope on the chain from `s` to its root that declares `n`.
/// A chain that ends visits each scope at most once, so it is followed for at
/// most as many scopes as the arena holds; a chain caught in a cycle of
/// parent links finds nothing beyond that.
pub open spec fn chain_lookup(scopes: Seq<Scope>, s: u32, n: Seq<char>) -> Option<u32> {
    chain_lookup_within(scopes, s, n, scopes.len())
}

/// What a scope holds, as names.
pub struct ScopeView {
    pub vars: Seq<Seq<char>>,
    pub parent: u32,
}

pub open spec fn scope_view(s: Scope) -> ScopeView {
    ScopeView { vars: names_of(s.variables@), parent: s.parent }
}

pub open spec fn scopes_view(v: Seq<Scope>) -> Seq<ScopeView> {
    v.map_values(|s: Scope| scope_view(s))
}

/// Whether an element carries a directive that opens a scope.
pub open spec fn opens_scope(e: ElementNode) -> bool {
    match e.starting_tag.directives {
        Some(d) => d.v_for is Some || d.v_slot is Some,
        None => false,
    }
}

/// The names that an element's directives introduce: those of the `v-for`
/// pattern if there is one, else those of the `v-slot` value.
pub open spec fn introduced_names(e: ElementNode) -> Seq<Seq<char>> {
    match e.starting_tag.directives {
        Some(d) => match d.v_for {
            Some(f) => bound_names(f.itervar),
            None => match d.v_slot {
                Some(VSlotDirective { slot_name: _, value: Some(v) }) => bound_names(v),
                _ => seq![],
            },
        },
        None => seq![],
    }
}

/// The scope arena after walking `node` where scope `cur` is in effect.
pub open spec fn walk_scopes(sv: Seq<ScopeView>, node: Node, cur: u32) -> Seq<ScopeView>
    decreases node,
{
    match node {
        Node::Element(e) => {
            if opens_scope(e) {
                walk_children_scopes(
                    sv.push(ScopeView { vars: introduced_names(e), parent: cur }),
                    e.children@,
                    sv.len() as u32,
                )
            } else {
                walk_children_scopes(sv, e.children@, cur)
            }
        },
        _ => sv,
    }
}

/// The scope arena after walking the nodes `cs` in order.
pub open spec fn walk_children_scopes(sv: Seq<ScopeView>, cs: Seq<Node>, cur: u32) -> Seq<
    ScopeView,
>
    decreases cs,
{
    if cs.len() == 0 {
        sv
    } else {
        walk_scopes(walk_children_scopes(sv, cs.drop_last(), cur), cs.last(), cur)
    }
}

/// Whether `after` is `before` with each element and interpolation stamped
/// with the scope in effect there, when the walk of `before` starts with the
/// arena `sv` and scope `cur`. A new scope takes the arena's length as its id.
pub open spec fn stamped(before: Node, after: Node, sv: Seq<ScopeView>, cur: u32) -> bool
    decreases before,
{
    match before {
        Node::Element(b) => match after {
            Node::Element(a) => {
                &&& a.starting_tag == b.starting_tag
                &&& if opens_scope(b) {
                    &&& a.template_scope == sv.len() as u32
                    &&& stamped_children(
                        b.children@,
                        a.children@,
                        sv.push(ScopeView { vars: introduced_names(b), parent: cur }),
                        sv.len() as u32,
                    )
                } else {
                    &&& a.template_scope == cur
                    &&& stamped_children(b.children@, a.children@, sv, cur)
                }
            },
            _ => false,
        },
        Node::Interpolation(b) => match after {
            Node::Interpolation(a) => a.value == b.value && a.template_scope == cur,
            _ => false,
        },
        _ => after == before,
    }
}

/// `stamped` for each of the nodes `bs`, walked in order.
pub open spec fn stamped_children(
    bs: Seq<Node>,
    as_: Seq<Node>,
    sv: Seq<ScopeView>,
    cur: u32,
) -> bool
    decreases bs,
{
    &&& bs.len() == as_.len()
    &&& bs.len() > 0 ==> {
        &&& stamped_children(bs.drop_last(), as_.drop_last(), sv, cur)
        &&& stamped(bs.last(), as_.last(), walk_children_scopes(sv, bs.drop_last(), cur), cur)
    }
}

proof fn lemma_walk_grows(sv: Seq<ScopeView>, node: Node, cur: u32)
    ensures
        walk_scopes(sv, node, cur).len() >= sv.len(),
        walk_scopes(sv, node, cur).subrange(0, sv.len() as int) == sv,
    decreases node,
{
    match node {
        Node::Element(e) => {
            if opens_scope(e) {
                let sv1 = sv.push(ScopeView { vars: introduced_names(e), parent: cur });
                lemma_children_grow(sv1, e.children@, sv.len() as u32);
                assert(walk_scopes(sv, node, cur).subrange(0, sv.len() as int) =~= sv1.subrange(
                    0,
                    sv.len() as int,
                ));
                assert(sv1.subrange(0, sv.len() as int) =~= sv);
            } else {
                lemma_children_grow(sv, e.children@, cur);
            }
        },
        _ => {
            assert(sv.subrange(0, sv.len() as int) =~= sv);
        },
    }
}

proof fn lemma_children_grow(sv: Seq<ScopeView>, cs: Seq<Node>, cur: u32)
    ensures
        walk_children_scopes(sv, cs, cur).len() >= sv.len(),
        walk_children_scopes(sv, cs, cur).subrange(0, sv.len() as int) == sv,
    decreases cs,
{
    if cs.len() == 0 {
        assert(sv.subrange(0, sv.len() as int) =~= sv);
    } else {
        let mid = walk_children_scopes(sv, cs.drop_last(), cur);
        lemma_children_grow(sv, cs.drop_last(), cur);
        lemma_walk_grows(mid, cs.last(), cur);
        let fin = walk_scopes(mid, cs.last(), cur);
        assert(fin.subrange(0, sv.len() as int) =~= fin.subrange(0, mid.len() as int).subrange(
            0,
            sv.len() as int,
        ));
    }
}

/// Walking a prefix of `cs` leaves an arena no longer than walking all of `cs`.
proof fn lemma_prefix_shorter(sv: Seq<ScopeView>, cs: Seq<Node>, cur: u32, k: int)
    requires
        0 <= k <= cs.len(),
    ensures
        walk_children_scopes(sv, cs.subrange(0, k), cur).len() <= walk_children_scopes(
            sv,
            cs,
            cur,
        ).len(),
    decreases cs.len() - k,
{
    if k < cs.len() {
        lemma_prefix_shorter(sv, cs, cur, k + 1);
        let pre = cs.subrange(0, k + 1);
        assert(pre.drop_last() =~= cs.subrange(0, k));
        lemma_walk_grows(walk_children_scopes(sv, cs.subrange(0, k), cur), pre.last(), cur);
    } else {
        assert(cs.subrange(0, k) =~= cs);
    }
}

/// A built-in name resolves to `Builtin` from every scope, whatever the scopes declare.
pub proof fn lemma_builtins_always_resolve(h: &ScopeHelper, s: u32, name: Seq<char>)
    requires
        is_builtin(name),
    ensures
        h.resolve(s, name) == VarScopeDescriptor::Builtin,
{
}

/// A registered global that is not a built-in resolves to `Global` from every
/// scope, even where a scope on the chain declares the same name.
pub proof fn lemma_globals_precede_template_scopes(h: &ScopeHelper, s: u32, name: Seq<char>)
    requires
        has_name(h.globals@, name),
        !is_builtin(name),
    ensures
        h.resolve(s, name) == VarScopeDescriptor::Global,
{
}

/// Whether the parent chain from `d` reaches `s` with no scope before `s`
/// declaring `n`.
pub open spec fn reaches_without(scopes: Seq<Scope>, d: u32, s: u32, n: Seq<char>) -> bool
    decreases d,
{
    if d == s {
        true
    } else if d < scopes.len() && scopes[d as int].parent < d && !has_name(
        scopes[d as int].variables@,
        n,
    ) {
        reaches_without(scopes, scopes[d as int].parent, s, n)
    } else {
        false
    }
}

/// A name declared by scope `s` resolves to `s` from `s` and from every
/// descendant of `s` whose chain up to `s` does not declare it again, unless it
/// is a built-in or a registered global.
pub proof fn lemma_scope_binds_for_descendants(h: &ScopeHelper, s: u32, d: u32, name: Seq<char>)
    requires
        s < h.template_scopes@.len(),
        has_name(h.template_scopes@[s as int].variables@, name),
        reaches_without(h.template_scopes@, d, s, name),
        !is_builtin(name),
        !has_name(h.globals@, name),
    ensures
        h.resolve(d, name) == VarScopeDescriptor::Template(s),
{
    lemma_reaches_within_arena(h.template_scopes@, d, s, name);
    lemma_chain_finds(h.template_scopes@, s, d, name, h.template_scopes@.len());
}

proof fn lemma_reaches_within_arena(scopes: Seq<Scope>, d: u32, s: u32, n: Seq<char>)
    requires
        s < scopes.len(),
        reaches_without(scopes, d, s, n),
    ensures
        d < scopes.len(),
{
}

proof fn lemma_chain_finds(scopes: Seq<Scope>, s: u32, d: u32, n: Seq<char>, fuel: nat)
    requires
        s < scopes.len(),
        has_name(scopes[s as int].variables@, n),
        reaches_without(scopes, d, s, n),
        fuel > d,
    ensures
        chain_lookup_within(scopes, d, n, fuel) == Some(s),
    decreases d,
{
    if d != s {
        lemma_chain_finds(scopes, s, scopes[d as int].parent, n, (fuel - 1) as nat);
    }
}

/// Walking an element that opens a scope adds, at the arena's former length, a
/// scope that holds the names of its directive and whose parent is the scope
/// in effect at the element.
pub proof fn lemma_directive_scope_recorded(sv: Seq<ScopeView>, e: ElementNode, cur: u32)
    requires
        opens_scope(e),
    ensures
        walk_scopes(sv, Node::Element(e), cur).len() > sv.len(),
        walk_scopes(sv, Node::Element(e), cur)[sv.len() as int] == (ScopeView {
            vars: introduced_names(e),
            parent: cur,
        }),
{
    let sv1 = sv.push(ScopeView { vars: introduced_names(e), parent: cur });
    lemma_children_grow(sv1, e.children@, sv.len() as u32);
    let fin = walk_children_scopes(sv1, e.children@, sv.len() as u32);
    assert(fin.subrange(0, sv1.len() as int)[sv.len() as int] == fin[sv.len() as int]);
}

/// Every scope's parent is itself (a root) or a scope created before it, so a
/// walk up the chain from any scope ends at a root.
pub open spec fn parents_precede(sv: Seq<ScopeView>) -> bool {
    forall|i: int| 0 <= i < sv.len() ==> #[trigger] sv[i].parent <= i
}

/// The walk keeps every parent link pointing backwards, however deep the
/// template nests, when it starts from an existing scope.
pub proof fn lemma_walk_parents_precede(sv: Seq<ScopeView>, node: Node, cur: u32)
    requires
        parents_precede(sv),
        cur < sv.len(),
    ensures
        parents_precede(walk_scopes(sv, node, cur)),
    decreases node,
{
    match node {
        Node::Element(e) => {
            if opens_scope(e) {
                let sv1 = sv.push(ScopeView { vars: introduced_names(e), parent: cur });
                assert(parents_precede(sv1)) by {
                    assert forall|i: int| 0 <= i < sv1.len() implies #[trigger] sv1[i].parent
                        <= i by {
                        if i < sv.len() {
                            assert(sv1[i] == sv[i]);
                        }
                    }
                }
                lemma_children_parents_precede(sv1, e.children@, sv.len() as u32);
            } else {
                lemma_children_parents_precede(sv, e.children@, cur);
            }
        },
        _ => {},
    }
}

/// `lemma_walk_parents_precede` for a sequence of sibling nodes.
pub proof fn lemma_children_parents_precede(sv: Seq<ScopeView>, cs: Seq<Node>, cur: u32)
    requires
        parents_precede(sv),
        cur < sv.len(),
    ensures
        parents_precede(walk_children_scopes(sv, cs, cur)),
    decreases cs,
{
    if cs.len() > 0 {
        lemma_children_parents_precede(sv, cs.drop_last(), cur);
        let mid = walk_children_scopes(sv, cs.drop_last(), cur);
        lemma_children_grow(sv, cs.drop_last(), cur);
        lemma_walk_parents_precede(mid, cs.last(), cur);
    }
}

/// The scopes and the names known outside the template for one component.
pub struct ScopeHelper {
    pub template_scopes: Vec<Scope>,
    /// The bindings that the setup script declares.
    pub setup_bindings: Vec<SetupBinding>,
    pub props_vars: Vec<String>,
    pub data_vars: Vec<String>,
    pub options_vars: Vec<String>,
    pub globals: Vec<String>,
}

impl ScopeHelper {
    /// What `name`, used where scope `s` is in effect, resolves to: built-ins
    /// first, then globals, then the scope chain, then the script's bindings,
    /// the properties, the data fields and the options.
    pub open spec fn resolve(&self, s: u32, name: Seq<char>) -> VarScopeDescriptor {
        if is_builtin(name) {
            VarScopeDescriptor::Builtin
        } else if has_name(self.globals@, name) {
            VarScopeDescriptor::Global
        } else if let Some(t) = chain_lookup(self.template_scopes@, s, name) {
            VarScopeDescriptor::Template(t)
        } else if has_binding(self.setup_bindings@, name) {
            VarScopeDescriptor::Setup
        } else if has_name(self.props_vars@, name) {
            VarScopeDescriptor::Props
        } else if has_name(self.data_vars@, name) {
            VarScopeDescriptor::Data
        } else if has_name(self.options_vars@, name) {
            VarScopeDescriptor::Options
        } else {
            VarScopeDescriptor::Unknown
        }
    }

    /// A helper with no scope and no known name.
    pub fn new() -> (r: ScopeHelper)
        ensures
            r.template_scopes@.len() == 0,
            r.setup_bindings@.len() == 0,
            r.props_vars@.len() == 0,
            r.data_vars@.len() == 0,
            r.options_vars@.len() == 0,
            r.globals@.len() == 0,
    {
        ScopeHelper {
            template_scopes: Vec::new(),
            setup_bindings: Vec::new(),
            props_vars: Vec::new(),
            data_vars: Vec::new(),
            options_vars: Vec::new(),
            globals: Vec::new(),
        }
    }

    /// Tells which namespace `variable` belongs to where `starting_scope` is in effect.
    pub fn find_scope_of_variable(&self, starting_scope: u32, variable: &String) -> (r:
        VarScopeDescriptor)
        ensures
            r == self.resolve(starting_scope, variable@),
    {
        if contains_name(&js_builtins(), variable) {
            return VarScopeDescriptor::Builtin;
        }
        if contains_name(&self.globals, variable) {
            return VarScopeDescriptor::Global;
        }
        let mut current_scope_index = starting_scope;
        let mut steps: usize = 0;
        while steps < self.template_scopes.len() && (current_scope_index as usize)
            < self.template_scopes.len()
            invariant
                !is_builtin(variable@),
                !has_name(self.globals@, variable@),
                steps <= self.template_scopes.len(),
                chain_lookup_within(
                    self.template_scopes@,
                    current_scope_index,
                    variable@,
                    (self.template_scopes.len() - steps) as nat,
                ) == chain_lookup(self.template_scopes@, starting_scope, variable@),
            ensures
                chain_lookup(self.template_scopes@, starting_scope, variable@) is None,
            decreases self.template_scopes.len() - steps,
        {
            let current_scope = &self.template_scopes[current_scope_index as usize];
            if contains_name(&current_scope.variables, variable) {
                return VarScopeDescriptor::Template(current_scope_index);
            }
            if current_scope.parent == current_scope_index {
                break;
            }
            current_scope_index = current_scope.parent;
            steps = steps + 1;
        }
        if contains_binding(&self.setup_bindings, variable) {
            return VarScopeDescriptor::Setup;
        }
        if contains_name(&self.props_vars, variable) {
            return VarScopeDescriptor::Props;
        }
        if contains_name(&self.data_vars, variable) {
            return VarScopeDescriptor::Data;
        }
        if contains_name(&self.options_vars, variable) {
            return VarScopeDescriptor::Options;
        }
        VarScopeDescriptor::Unknown
    }

    /// The arena that a walk of `ast` starts with: a root scope is added first
    /// when there is none yet and the template is not empty.
    pub open spec fn initial_scopes(&self, ast: Seq<Node>) -> Seq<ScopeView> {
        if self.template_scopes@.len() == 0 && ast.len() != 0 {
            seq![ScopeView { vars: seq![], parent: 0 }]
        } else {
            scopes_view(self.template_scopes@)
        }
    }

    /// Assigns scope ids to the template's nodes and records the names that
    /// `v-for` and `v-slot` introduce.
    pub fn transform_and_record_ast(&mut self, ast: &mut Vec<Node>)
        requires
            walk_children_scopes(old(self).initial_scopes(old(ast)@), old(ast)@, 0).len()
                <= u32::MAX as nat,
        ensures
            scopes_view(final(self).template_scopes@) == walk_children_scopes(
                old(self).initial_scopes(old(ast)@),
                old(ast)@,
                0,
            ),
            stamped_children(old(ast)@, final(ast)@, old(self).initial_scopes(old(ast)@), 0),
            final(self).same_names(old(self)),
    {
        if self.template_scopes.len() == 0 && ast.len() != 0 {
            let root = Scope { variables: Vec::new(), parent: 0 };
            assert(names_of(root.variables@) =~= seq![]);
            self.template_scopes.push(root);
            assert(scopes_view(self.template_scopes@) =~= seq![ScopeView { vars: seq![], parent: 0 }]);
        }
        let ghost sv0 = scopes_view(self.template_scopes@);
        let ghost orig = ast@;
        proof {
            lemma_prefix_shorter(sv0, orig, 0, 0);
        }
        let mut rest: Vec<Node> = Vec::new();
        std::mem::swap(&mut rest, ast);
        let mut walked: Vec<Node> = Vec::new();
        while rest.len() > 0
            invariant
                walked@.len() + rest@.len() == orig.len(),
                rest@ == orig.subrange(walked@.len() as int, orig.len() as int),
                scopes_view(self.template_scopes@) == walk_children_scopes(
                    sv0,
                    orig.subrange(0, walked@.len() as int),
                    0,
                ),
                stamped_children(orig.subrange(0, walked@.len() as int), walked@, sv0, 0),
                walk_children_scopes(sv0, orig, 0).len() <= u32::MAX as nat,
                self.same_names(old(self)),
            decreases rest@.len(),
        {
            let ghost k = walked@.len() as int;
            let node = rest.remove(0);
            assert(node == orig[k]);
            proof {
                lemma_prefix_shorter(sv0, orig, 0, k + 1);
                assert(orig.subrange(0, k + 1).drop_last() =~= orig.subrange(0, k));
                assert(orig.subrange(0, k + 1).last() == orig[k]);
            }
            let ghost walked_before = walked@;
            let stamped_node = self.walk_ast_node(node, 0);
            walked.push(stamped_node);
            proof {
                assert(walked@.drop_last() =~= walked_before);
                assert(rest@ =~= orig.subrange(walked@.len() as int, orig.len() as int));
            }
        }
        assert(orig.subrange(0, orig.len() as int) =~= orig);
        *ast = walked;
    }

    /// Walks `node` where scope `current_scope_identifier` is in effect: opens a
    /// scope for each structural directive, records the names it introduces,
    /// and stamps each element and interpolation with the scope in effect.
    fn walk_ast_node(&mut self, node: Node, current_scope_identifier: u32) -> (r: Node)
        requires
            walk_scopes(scopes_view(old(self).template_scopes@), node, current_scope_identifier).len()
                <= u32::MAX as nat,
        ensures
            scopes_view(final(self).template_scopes@) == walk_scopes(
                scopes_view(old(self).template_scopes@),
                node,
                current_scope_identifier,
            ),
            stamped(node, r, scopes_view(old(self).template_scopes@), current_scope_identifier),
            final(self).same_names(old(self)),
        decreases node,
    {
        let ghost sv0 = scopes_view(self.template_scopes@);
        match node {
            Node::Element(element_node) => {
                let ghost before = element_node;
                let ElementNode { starting_tag, children, template_scope: _ } = element_node;
                let mut scope_to_use = current_scope_identifier;
                match &starting_tag.directives {
                    Some(directives) => {
                        if directives.v_for.is_some() || directives.v_slot.is_some() {
                            proof {
                                lemma_children_grow(
                                    sv0.push(ScopeView { vars: introduced_names(before), parent: current_scope_identifier }),
                                    before.children@,
                                    sv0.len() as u32,
                                );
                            }
                            scope_to_use = self.template_scopes.len() as u32;
                            let mut scope = Scope { variables: Vec::new(), parent: current_scope_identifier };
                            match &directives.v_for {
                                Some(v_for) => {
                                    Self::collect_variables(&v_for.itervar, &mut scope);
                                },
                                None => match &directives.v_slot {
                                    Some(VSlotDirective { slot_name: _, value: Some(v_slot_value) }) => {
                                        Self::collect_variables(v_slot_value, &mut scope);
                                    },
                                    _ => {
                                        assert(names_of(scope.variables@) =~= seq![]);
                                    },
                                },
                            }
                            self.template_scopes.push(scope);
                            assert(scopes_view(self.template_scopes@) =~= sv0.push(
                                ScopeView { vars: introduced_names(before), parent: current_scope_identifier },
                            ));
                        }
                    },
                    None => {},
                }
                let ghost sv1 = scopes_view(self.template_scopes@);
                let ghost orig = children@;
                proof {
                    lemma_prefix_shorter(sv1, orig, scope_to_use, 0);
                }
                let mut rest = children;
                let mut walked: Vec<Node> = Vec::new();
                while rest.len() > 0
                    invariant
                        walked@.len() + rest@.len() == orig.len(),
                        rest@ == orig.subrange(walked@.len() as int, orig.len() as int),
                        scopes_view(self.template_scopes@) == walk_children_scopes(
                            sv1,
                            orig.subrange(0, walked@.len() as int),
                            scope_to_use,
                        ),
                        stamped_children(orig.subrange(0, walked@.len() as int), walked@, sv1, scope_to_use),
                        walk_children_scopes(sv1, orig, scope_to_use).len() <= u32::MAX as nat,
                        self.same_names(old(self)),
                        decreases_to!(node => orig),
                    decreases rest@.len(),
                {
                    let ghost k = walked@.len() as int;
                    let child = rest.remove(0);
                    assert(child == orig[k]);
                    proof {
                        lemma_prefix_shorter(sv1, orig, scope_to_use, k + 1);
                        assert(orig.subrange(0, k + 1).drop_last() =~= orig.subrange(0, k));
                        assert(orig.subrange(0, k + 1).last() == orig[k]);
                    }
                    let ghost walked_before = walked@;
                    let stamped_child = self.walk_ast_node(child, scope_to_use);
                    walked.push(stamped_child);
                    proof {
                        assert(walked@.drop_last() =~= walked_before);
                        assert(rest@ =~= orig.subrange(walked@.len() as int, orig.len() as int));
                    }
                }
                assert(orig.subrange(0, orig.len() as int) =~= orig);
                Node::Element(ElementNode { starting_tag, children: walked, template_scope: scope_to_use })
            },
            Node::Interpolation(interpolation) => {
                Node::Interpolation(Interpolation { value: interpolation.value, template_scope: current_scope_identifier })
            },
            other => other,
        }
    }

    /// Records the names that `expr` binds in `scope`, after those it holds.
    fn collect_variables(expr: &Expr, scope: &mut Scope)
        ensures
            names_of(final(scope).variables@) == names_of(old(scope).variables@) + bound_names(*expr),
            final(scope).parent == old(scope).parent,
    {
        let mut visitor = IdentifierVisitor { collected: Vec::new() };
        visitor.visit_expr(expr);
        assert(names_of(visitor.collected@) =~= bound_names(*expr));
        let ghost start = names_of(scope.variables@);
        let mut k: usize = 0;
        while k < visitor.collected.len()
            invariant
                0 <= k <= visitor.collected.len(),
                names_of(scope.variables@) == start + names_of(visitor.collected@).subrange(0, k as int),
                scope.parent == old(scope).parent,
            decreases visitor.collected.len() - k,
        {
            let ghost before = scope.variables@;
            scope.variables.push(visitor.collected[k].clone());
            assert(names_of(scope.variables@) =~= names_of(before).push(visitor.collected@[k as int]@));
            assert(names_of(visitor.collected@).subrange(0, k + 1) =~= names_of(visitor.collected@).subrange(0, k as int).push(visitor.collected@[k as int]@));
            k = k + 1;
        }
        assert(names_of(visitor.collected@).subrange(0, k as int) =~= names_of(visitor.collected@));
    }

    /// Whether the names outside the template are those of `other`.
    pub open spec fn same_names(&self, other: &ScopeHelper) -> bool {
        &&& self.setup_bindings == other.setup_bindings
        &&& self.props_vars == other.props_vars
        &&& self.data_vars == other.data_vars
        &&& self.options_vars == other.options_vars
        &&& self.globals == other.globals
    }
}

fn js_builtins() -> (r: Vec<String>)
    ensures
        names_of(r@) == builtin_names(),
{
    let r = vec![
        String::from_str("true"),
        String::from_str("false"),
        String::from_str("null"),
        String::from_str("undefined"),
        String::from_str("Array"),
        String::from_str("Set"),
        String::from_str("Map"),
    ];
    assert(names_of(r@) =~= builtin_names());
    r
}

/// Whether one of the bindings of `v` is named `n`.
fn contains_binding(v: &Vec<SetupBinding>, n: &String) -> (r: bool)
    ensures
        r == has_binding(v@, n@),
{
    let mut k: usize = 0;
    while k < v.len()
        invariant
            0 <= k <= v.len(),
            forall|j: int| 0 <= j < k ==> v@[j].0@ != n@,
        decreases v.len() - k,
    {
        if v[k].0 == *n {
            return true;
        }
        k = k + 1;
    }
    false
}

/// Whether `v` holds the string `n`.
fn contains_name(v: &Vec<String>, n: &String) -> (r: bool)
    ensures
        r == has_name(v@, n@),
{
    let mut k: usize = 0;
    while k < v.len()
        invariant
            0 <= k <= v.len(),
            forall|j: int| 0 <= j < k ==> v@[j]@ != n@,
        decreases v.len() - k,
    {
        if v[k] == *n {
            assert(names_of(v@)[k as int] == n@);
            return true;
        }
        k = k + 1;
    }
    assert(!names_of(v@).contains(n@)) by {
        if names_of(v@).contains(n@) {
            let j = choose|j: int| 0 <= j < names_of(v@).len() && names_of(v@)[j] == n@;
            assert(v@[j]@ == n@);
        }
    }
    false
}

/// Collects the identifiers that a binding pattern introduces.
struct IdentifierVisitor {
    collected: Vec<String>,
}

impl IdentifierVisitor {
    fn visit_ident(&mut self, n: &String)
        ensures
            names_of(final(self).collected@) == names_of(old(self).collected@).push(n@),
    {
        let ghost before = self.collected@;
        self.collected.push(n.clone());
        assert(names_of(self.collected@) =~= names_of(before).push(n@));
    }

    fn visit_object_lit(&mut self, props: &Vec<PropOrSpread>)
        ensures
            names_of(final(self).collected@) == names_of(old(self).collected@) + object_bound_names(
                props@,
            ),
    {
        let ghost start = names_of(self.collected@);
        let mut k: usize = 0;
        while k < props.len()
            invariant
                0 <= k <= props.len(),
                names_of(self.collected@) == start + object_bound_names(props@.subrange(0, k as int)),
            decreases props.len() - k,
        {
            assert(props@.subrange(0, k + 1).drop_last() =~= props@.subrange(0, k as int));
            let ghost before = names_of(self.collected@);
            match &props[k] {
                PropOrSpread::Shorthand(ident) => {
                    self.visit_ident(ident);
                },
                PropOrSpread::KeyValue { key: _, value } => {
                    match &**value {
                        Expr::Ident(ident) => {
                            self.visit_ident(ident);
                        },
                        _ => {},
                    }
                },
                PropOrSpread::Spread(_) => {},
            }
            assert(names_of(self.collected@) =~= before + prop_bound_names(props@[k as int]));
            assert(names_of(self.collected@) =~= start + object_bound_names(
                props@.subrange(0, k + 1),
            ));
            k = k + 1;
        }
        assert(props@.subrange(0, props.len() as int) =~= props@);
    }

    fn visit_exprs(&mut self, es: &Vec<Expr>)
        ensures
            names_of(final(self).collected@) == names_of(old(self).collected@) + list_bound_names(
                es@,
            ),
        decreases es,
    {
        let ghost start = names_of(self.collected@);
        let mut k: usize = 0;
        while k < es.len()
            invariant
                0 <= k <= es.len(),
                names_of(self.collected@) == start + list_bound_names(es@.subrange(0, k as int)),
            decreases es.len() - k,
        {
            assert(es@.subrange(0, k + 1).drop_last() =~= es@.subrange(0, k as int));
            self.visit_expr(&es[k]);
            assert(names_of(self.collected@) =~= start + list_bound_names(es@.subrange(0, k + 1)));
            k = k + 1;
        }
        assert(es@.subrange(0, es.len() as int) =~= es@);
    }

    fn visit_optional_exprs(&mut self, es: &Vec<Option<Expr>>)
        ensures
            names_of(final(self).collected@) == names_of(old(self).collected@) + array_bound_names(
                es@,
            ),
        decreases es,
    {
        let ghost start = names_of(self.collected@);
        let mut k: usize = 0;
        while k < es.len()
            invariant
                0 <= k <= es.len(),
                names_of(self.collected@) == start + array_bound_names(es@.subrange(0, k as int)),
            decreases es.len() - k,
        {
            assert(es@.subrange(0, k + 1).drop_last() =~= es@.subrange(0, k as int));
            match &es[k] {
                Some(elem) => {
                    self.visit_expr(elem);
                },
                None => {},
            }
            assert(names_of(self.collected@) =~= start + array_bound_names(
                es@.subrange(0, k + 1),
            ));
            k = k + 1;
        }
        assert(es@.subrange(0, es.len() as int) =~= es@);
    }

    fn visit_expr(&mut self, e: &Expr)
        ensures
            names_of(final(self).collected@) == names_of(old(self).collected@) + bound_names(*e),
        decreases e, 1nat,
    {
        let ghost start = names_of(self.collected@);
        match e {
            Expr::Ident(ident) => {
                self.visit_ident(ident);
            },
            Expr::Str(_) => {
                assert(start + bound_names(*e) =~= start);
            },
            Expr::Lit(_) => {
                assert(start + bound_names(*e) =~= start);
            },
            Expr::Object(props) => {
                self.visit_object_lit(props);
            },
            Expr::Array(elems) => {
                self.visit_optional_exprs(elems);
            },
            Expr::Paren(inner) => {
                self.visit_expr(inner);
            },
            Expr::Sequence(exprs) => {
                self.visit_exprs(exprs);
            },
            Expr::Call { callee, args } => {
                self.visit_expr(callee);
                self.visit_exprs(args);
                assert(names_of(self.collected@) =~= start + bound_names(*e));
            },
            Expr::Arrow { params, body } => {
                self.visit_exprs(params);
                self.visit_expr(body);
                assert(names_of(self.collected@) =~= start + bound_names(*e));
            },
        }
    }
}

} // verus!
