use vstd::prelude::*;
use crate::{
    md_appended, md_kind_interned, md_operands, names_unique, visit_outcome, FunctionDecl,
    ModuleView,
};
use crate::value;

verus! {

/// A fresh module has neither a target nor a data layout, and setting the
/// target or the data layout of a module and reading it back gives exactly
/// the value that was set.
pub proof fn lemma_target_layout_round_trip(name: Seq<char>, m: ModuleView, s: Seq<char>)
    ensures
        ModuleView::fresh(name).target == Seq::<char>::empty(),
        ModuleView::fresh(name).data_layout == Seq::<char>::empty(),
        (ModuleView { target: s, ..m }).target == s,
        (ModuleView { data_layout: s, ..m }).data_layout == s,
{
}

/// A walk over a module with no functions visits nothing and reports `true`.
pub proof fn lemma_each_function_empty<F: Fn(value::Function) -> bool>(
    fns: Seq<FunctionDecl>,
    visitor: F,
    r: bool,
)
    requires
        fns.len() == 0,
        visit_outcome(fns, visitor, r),
    ensures
        r,
{
}

/// Functions added one after another to a module with none stand in the
/// module in the order they were added, and nothing else does.
pub proof fn lemma_functions_in_declaration_order(
    steps: Seq<ModuleView>,
    added: Seq<FunctionDecl>,
)
    requires
        steps.len() == added.len() + 1,
        steps[0].functions.len() == 0,
        forall|i: int|
            0 <= i < added.len() ==> #[trigger] steps[i + 1].functions == steps[i].functions.push(
                added[i],
            ),
    ensures
        steps.last().functions == added,
    decreases added.len(),
{
    if added.len() > 0 {
        let n = added.len() - 1;
        lemma_functions_in_declaration_order(steps.take(n + 1), added.take(n));
        assert(steps[n + 1].functions == steps[n].functions.push(added[n]));
        assert(added =~= added.take(n).push(added[n]));
    }
}

/// A walk whose visitor accepts every function reports `true`.
pub proof fn lemma_each_function_visits_all<F: Fn(value::Function) -> bool>(
    fns: Seq<FunctionDecl>,
    visitor: F,
    r: bool,
)
    requires
        visit_outcome(fns, visitor, r),
        forall|j: int, b: bool|
            0 <= j < fns.len() && #[trigger] visitor.ensures((fns[j].value,), b) ==> b,
    ensures
        r,
{
}

/// A walk whose visitor refuses the function at position `k` reports
/// `false`.
pub proof fn lemma_each_function_stops<F: Fn(value::Function) -> bool>(
    fns: Seq<FunctionDecl>,
    visitor: F,
    r: bool,
    k: int,
)
    requires
        visit_outcome(fns, visitor, r),
        0 <= k < fns.len(),
        forall|b: bool| #[trigger] visitor.ensures((fns[k].value,), b) ==> !b,
    ensures
        !r,
{
    if r {
        assert(visitor.ensures((fns[k].value,), true));
    }
}

/// Appending an operand to a named metadata node and reading the node back
/// gives its former operands followed by the new one.
pub proof fn lemma_md_append_then_get(
    nodes: Seq<(Seq<char>, Seq<value::Metadata>)>,
    name: Seq<char>,
    m: value::Metadata,
)
    requires
        names_unique(nodes),
    ensures
        md_operands(md_appended(nodes, name, m), name) == md_operands(nodes, name).push(m),
{
    let after = md_appended(nodes, name, m);
    if exists|i: int| 0 <= i < nodes.len() && nodes[i].0 == name {
        let i = choose|i: int| 0 <= i < nodes.len() && nodes[i].0 == name;
        assert(after[i].0 == name);
        let k = choose|k: int| 0 <= k < after.len() && after[k].0 == name;
        assert(k == i);
    } else {
        let n = nodes.len() as int;
        assert(after[n].0 == name);
        let k = choose|k: int| 0 <= k < after.len() && after[k].0 == name;
        assert(k == n);
        assert(md_operands(nodes, name) == Seq::<value::Metadata>::empty());
        assert(seq![m] =~= Seq::<value::Metadata>::empty().push(m));
    }
}

/// Adding an operand to a metadata node that has none yet, then reading the
/// node back, gives exactly that operand.
pub proof fn lemma_md_add_to_new_node(
    nodes: Seq<(Seq<char>, Seq<value::Metadata>)>,
    name: Seq<char>,
    m: value::Metadata,
)
    requires
        names_unique(nodes),
        md_operands(nodes, name).len() == 0,
    ensures
        md_operands(md_appended(nodes, name, m), name) == seq![m],
{
    lemma_md_append_then_get(nodes, name, m);
    assert(md_operands(nodes, name) =~= Seq::<value::Metadata>::empty());
    assert(seq![m] =~= Seq::<value::Metadata>::empty().push(m));
}

/// Asking a context twice for the id of one metadata kind gives the same id,
/// and the second request leaves the registry as the first one left it.
pub proof fn lemma_md_kind_id_stable(
    kinds0: Seq<Seq<char>>,
    name: Seq<char>,
    kinds1: Seq<Seq<char>>,
    id1: int,
    kinds2: Seq<Seq<char>>,
    id2: int,
)
    requires
        md_kind_interned(kinds0, name, kinds1, id1),
        md_kind_interned(kinds1, name, kinds2, id2),
    ensures
        id1 == id2,
        kinds2 == kinds1,
{
    assert(kinds1.contains(name)) by {
        assert(kinds1[id1] == name);
    }
    if id1 < id2 {
        assert(kinds2[id1] != name);
    } else if id2 < id1 {
        assert(kinds1[id2] != name);
    }
}

} // verus!
