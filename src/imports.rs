//! Bookkeeping of the runtime helpers that generated code calls, and the
//! single import statement that brings exactly those helpers in.

use vstd::prelude::*;
use vstd::string::StringExecFns;

verus! {

/// A runtime helper that generated code may call.
#[derive(Clone, Copy, Debug, PartialEq, Eq, Structural)]
pub enum VueImports {
    CreateElementVNode,
    CreateTextVNode,
    ToDisplayString,
    WithModifiers,
}

/// The helpers in their fixed declaration order.
pub open spec fn all_imports() -> Seq<VueImports> {
    seq![
        VueImports::CreateElementVNode,
        VueImports::CreateTextVNode,
        VueImports::ToDisplayString,
        VueImports::WithModifiers,
    ]
}

/// The name under which generated code calls a helper.
pub open spec fn import_name(i: VueImports) -> Seq<char> {
    match i {
        VueImports::CreateElementVNode => "_createElementVNode"@,
        VueImports::CreateTextVNode => "_createTextVNode"@,
        VueImports::ToDisplayString => "_toDisplayString"@,
        VueImports::WithModifiers => "_withModifiers"@,
    }
}

/// The name under which the runtime package exports a helper.
pub open spec fn exported_name(i: VueImports) -> Seq<char> {
    match i {
        VueImports::CreateElementVNode => "createElementVNode"@,
        VueImports::CreateTextVNode => "createTextVNode"@,
        VueImports::ToDisplayString => "toDisplayString"@,
        VueImports::WithModifiers => "withModifiers"@,
    }
}

/// The bit that marks a helper as used.
pub open spec fn mask_bit(i: VueImports) -> u64 {
    match i {
        VueImports::CreateElementVNode => 1,
        VueImports::CreateTextVNode => 2,
        VueImports::ToDisplayString => 4,
        VueImports::WithModifiers => 8,
    }
}

/// Whether `mask` marks helper `i` as used.
pub open spec fn mask_uses(mask: u64, i: VueImports) -> bool {
    mask & mask_bit(i) != 0
}

/// One import specifier: `exported as _called`.
pub open spec fn import_entry(i: VueImports) -> Seq<char> {
    exported_name(i) + " as "@ + import_name(i)
}

/// The specifiers of the used helpers among the first `k` in declaration order.
pub open spec fn used_entries(mask: u64, k: nat) -> Seq<Seq<char>>
    decreases k,
{
    if k == 0 {
        seq![]
    } else {
        let prev = used_entries(mask, (k - 1) as nat);
        let i = all_imports()[k - 1];
        if mask_uses(mask, i) {
            prev.push(import_entry(i))
        } else {
            prev
        }
    }
}

/// The parts separated by `", "`.
pub open spec fn join_with_commas(parts: Seq<Seq<char>>) -> Seq<char>
    decreases parts.len(),
{
    if parts.len() == 0 {
        seq![]
    } else if parts.len() == 1 {
        parts[0]
    } else {
        join_with_commas(parts.drop_last()) + ", "@ + parts.last()
    }
}

/// The import statement for the helpers that `mask` marks.
pub open spec fn imports_statement(mask: u64) -> Seq<char> {
    "import { "@ + join_with_commas(used_entries(mask, 4)) + " } from \"vue\""@
}

/// The helpers that `mask` marks, in declaration order.
pub open spec fn used_in_order(mask: u64) -> Seq<VueImports> {
    all_imports().filter(|i: VueImports| mask_uses(mask, i))
}

/// Per-file state of code generation that tracks the helpers used so far.
pub struct CodegenContext {
    pub used_imports: u64,
}

impl CodegenContext {
    /// Whether helper `i` has been marked as used.
    pub open spec fn uses(&self, i: VueImports) -> bool {
        mask_uses(self.used_imports, i)
    }

    /// A context in which no helper is used yet.
    pub fn new() -> (r: CodegenContext)
        ensures
            r.used_imports == 0,
            forall|i: VueImports| !r.uses(i),
    {
        proof {
            lemma_empty_mask_uses_nothing();
        }
        CodegenContext { used_imports: 0 }
    }

    /// Marks helper `vue_import` as used.
    pub fn add_to_imports(&mut self, vue_import: VueImports)
        ensures
            final(self).used_imports == old(self).used_imports | mask_bit(vue_import),
            forall|j: VueImports| final(self).uses(j) == (old(self).uses(j) || j == vue_import),
    {
        self.used_imports = self.used_imports | Self::get_import_mask_bit(vue_import);
        assert forall|j: VueImports| self.uses(j) == (old(self).uses(j) || j == vue_import) by {
            lemma_or_uses(old(self).used_imports, vue_import, j);
        }
    }

    /// The name under which generated code calls `vue_import`.
    pub fn get_import_str(vue_import: VueImports) -> (r: &'static str)
        ensures
            r@ == import_name(vue_import),
    {
        match vue_import {
            VueImports::CreateElementVNode => "_createElementVNode",
            VueImports::CreateTextVNode => "_createTextVNode",
            VueImports::ToDisplayString => "_toDisplayString",
            VueImports::WithModifiers => "_withModifiers",
        }
    }

    /// The name under which the runtime package exports `vue_import`.
    fn get_exported_str(vue_import: VueImports) -> (r: &'static str)
        ensures
            r@ == exported_name(vue_import),
    {
        match vue_import {
            VueImports::CreateElementVNode => "createElementVNode",
            VueImports::CreateTextVNode => "createTextVNode",
            VueImports::ToDisplayString => "toDisplayString",
            VueImports::WithModifiers => "withModifiers",
        }
    }

    /// Marks `vue_import` as used and returns the name to call it by.
    pub fn get_and_add_import_str(&mut self, vue_import: VueImports) -> (r: &'static str)
        ensures
            r@ == import_name(vue_import),
            final(self).used_imports == old(self).used_imports | mask_bit(vue_import),
            forall|j: VueImports| final(self).uses(j) == (old(self).uses(j) || j == vue_import),
    {
        self.add_to_imports(vue_import);
        Self::get_import_str(vue_import)
    }

    /// The import statement for every helper marked as used, in declaration order.
    pub fn generate_imports_string(&self) -> (r: String)
        ensures
            r@ == imports_statement(self.used_imports),
    {
        let imports_mask = self.used_imports;
        let all = vec![
            VueImports::CreateElementVNode,
            VueImports::CreateTextVNode,
            VueImports::ToDisplayString,
            VueImports::WithModifiers,
        ];
        assert(all@ == all_imports());
        let mut result = String::from_str("import { ");
        let mut has_first_import = false;
        let mut k: usize = 0;
        while k < all.len()
            invariant
                all@ == all_imports(),
                0 <= k <= all.len(),
                result@ == "import { "@ + join_with_commas(used_entries(imports_mask, k as nat)),
                has_first_import == (used_entries(imports_mask, k as nat).len() > 0),
            decreases all.len() - k,
        {
            let import = all[k];
            let ghost prev = used_entries(imports_mask, k as nat);
            if Self::get_import_mask_bit(import) & imports_mask != 0 {
                let ghost next = prev.push(import_entry(import));
                assert(next.drop_last() == prev);
                if has_first_import {
                    result.append(", ");
                }
                let import_str = Self::get_import_str(import);
                result.append(Self::get_exported_str(import));
                result.append(" as ");
                result.append(import_str);
                has_first_import = true;
                proof {
                    lemma_and_commutes(mask_bit(import), imports_mask);
                    if prev.len() == 0 {
                        assert(join_with_commas(prev) == Seq::<char>::empty());
                        assert(next.len() == 1);
                    }
                    assert(result@ =~= "import { "@ + join_with_commas(next));
                }
            } else {
                proof {
                    lemma_and_commutes(mask_bit(import), imports_mask);
                }
            }
            k = k + 1;
        }
        result.append(" } from \"vue\"");
        result
    }

    fn get_import_mask_bit(vue_import: VueImports) -> (r: u64)
        ensures
            r == mask_bit(vue_import),
    {
        match vue_import {
            VueImports::CreateElementVNode => 1,
            VueImports::CreateTextVNode => 2,
            VueImports::ToDisplayString => 4,
            VueImports::WithModifiers => 8,
        }
    }
}

proof fn lemma_and_commutes(a: u64, b: u64)
    ensures
        a & b == b & a,
{
    assert(a & b == b & a) by (bit_vector);
}

proof fn lemma_empty_mask_uses_nothing()
    ensures
        forall|i: VueImports| !mask_uses(0, i),
{
    assert(forall|b: u64| 0u64 & b == 0) by (bit_vector);
}

proof fn lemma_or_and(a: u64, b: u64, c: u64)
    ensures
        ((a | b) & c != 0) == ((a & c != 0) || (b & c != 0)),
{
    assert(((a | b) & c != 0) == ((a & c != 0) || (b & c != 0))) by (bit_vector);
}

proof fn lemma_single_bits(b: u64, c: u64)
    requires
        b == 1 || b == 2 || b == 4 || b == 8,
        c == 1 || c == 2 || c == 4 || c == 8,
    ensures
        (b & c != 0) == (b == c),
{
    assert((b & c != 0) == (b == c)) by (bit_vector)
        requires
            b == 1 || b == 2 || b == 4 || b == 8,
            c == 1 || c == 2 || c == 4 || c == 8,
    ;
}

/// Setting the bit of `i` marks `i` and keeps the mark of every other helper `j`.
proof fn lemma_or_uses(mask: u64, i: VueImports, j: VueImports)
    ensures
        mask_uses(mask | mask_bit(i), j) == (mask_uses(mask, j) || j == i),
{
    lemma_or_and(mask, mask_bit(i), mask_bit(j));
    lemma_single_bits(mask_bit(i), mask_bit(j));
    assert((mask_bit(i) == mask_bit(j)) == (i == j));
}

/// Marking the same helper again changes nothing, so the import statement
/// generated before and after is the same.
pub proof fn lemma_marking_again_changes_nothing(mask: u64, i: VueImports)
    ensures
        (mask | mask_bit(i)) | mask_bit(i) == mask | mask_bit(i),
        imports_statement((mask | mask_bit(i)) | mask_bit(i)) == imports_statement(
            mask | mask_bit(i),
        ),
{
    let b = mask_bit(i);
    assert((mask | b) | b == mask | b) by (bit_vector);
}

/// The import statement does not depend on the order in which helpers were
/// first used: it lists the marked helpers in declaration order.
pub proof fn lemma_use_order_irrelevant(mask: u64, a: VueImports, b: VueImports)
    ensures
        imports_statement((mask | mask_bit(a)) | mask_bit(b)) == imports_statement(
            (mask | mask_bit(b)) | mask_bit(a),
        ),
{
    let x = mask_bit(a);
    let y = mask_bit(b);
    assert((mask | x) | y == (mask | y) | x) by (bit_vector);
}

/// Only marked helpers appear in the statement, each with its own names.
pub proof fn lemma_only_marked_helpers_listed(mask: u64, k: nat)
    requires
        k <= 4,
    ensures
        forall|e: Seq<char>|
            #[trigger] used_entries(mask, k).contains(e) ==> exists|j: int|
                0 <= j < k && mask_uses(mask, all_imports()[j]) && e == import_entry(
                    all_imports()[j],
                ),
    decreases k,
{
    if k > 0 {
        lemma_only_marked_helpers_listed(mask, (k - 1) as nat);
        let prev = used_entries(mask, (k - 1) as nat);
        assert forall|e: Seq<char>| #[trigger] used_entries(mask, k).contains(e) implies exists|j: int|
            0 <= j < k && mask_uses(mask, all_imports()[j]) && e == import_entry(all_imports()[j]) by {
            let i = all_imports()[k - 1];
            if mask_uses(mask, i) {
                let idx = choose|x: int| 0 <= x < prev.push(import_entry(i)).len() && prev.push(import_entry(i))[x] == e;
                if idx < prev.len() {
                    assert(prev.contains(e));
                } else {
                    assert(e == import_entry(i));
                }
            } else {
                assert(prev.contains(e));
            }
        }
    }
}

/// The mask after marking the helpers `uses`, in order, starting from `mask`:
/// what a sequence of `add_to_imports` or `get_and_add_import_str` calls leaves.
pub open spec fn mask_after(mask: u64, uses: Seq<VueImports>) -> u64
    decreases uses.len(),
{
    if uses.len() == 0 {
        mask
    } else {
        mask_after(mask, uses.drop_last()) | mask_bit(uses.last())
    }
}

proof fn lemma_mask_after_uses(mask: u64, uses: Seq<VueImports>, j: VueImports)
    ensures
        mask_uses(mask_after(mask, uses), j) == (mask_uses(mask, j) || uses.contains(j)),
    decreases uses.len(),
{
    if uses.len() > 0 {
        let pre = uses.drop_last();
        lemma_mask_after_uses(mask, pre, j);
        lemma_or_uses(mask_after(mask, pre), uses.last(), j);
        if pre.contains(j) {
            let x = choose|x: int| 0 <= x < pre.len() && pre[x] == j;
            assert(uses[x] == j);
        }
        if uses.contains(j) && j != uses.last() {
            let x = choose|x: int| 0 <= x < uses.len() && uses[x] == j;
            assert(pre[x] == j);
        }
    }
}

proof fn lemma_entries_follow_marks(m1: u64, m2: u64, k: nat)
    requires
        forall|i: VueImports| mask_uses(m1, i) == mask_uses(m2, i),
    ensures
        used_entries(m1, k) == used_entries(m2, k),
    decreases k,
{
    if k > 0 {
        lemma_entries_follow_marks(m1, m2, (k - 1) as nat);
        assert(mask_uses(m1, all_imports()[k - 1]) == mask_uses(m2, all_imports()[k - 1]));
    }
}

/// Two contexts that start with no helper used and then mark the same set of
/// helpers, in any order and with any repetition, generate the same import
/// statement.
pub proof fn lemma_same_helpers_same_statement(a: Seq<VueImports>, b: Seq<VueImports>)
    requires
        forall|i: VueImports| a.contains(i) == b.contains(i),
    ensures
        imports_statement(mask_after(0, a)) == imports_statement(mask_after(0, b)),
{
    lemma_empty_mask_uses_nothing();
    assert forall|i: VueImports| mask_uses(mask_after(0, a), i) == mask_uses(mask_after(0, b), i) by {
        lemma_mask_after_uses(0, a, i);
        lemma_mask_after_uses(0, b, i);
    }
    lemma_entries_follow_marks(mask_after(0, a), mask_after(0, b), 4);
}

} // verus!
