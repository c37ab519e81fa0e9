//! Organisation chart: turning the flat list of departments that the
//! recursive query returns into a nested tree.
//!
//! The list is indexed by id; when an id occurs more than once only its last
//! occurrence counts. A department hangs under its parent when the parent's
//! (last) occurrence comes earlier in the list; otherwise it is a root.
//! Children and roots keep the order of the list.

use vstd::prelude::*;
use std::collections::HashMap;
use crate::iam_models::{Department, DepartmentTreeNode};

verus! {

broadcast use vstd::std_specs::hash::group_hash_axioms;

/// Mathematical form of a tree node.
pub struct OrgNode {
    pub department: Department,
    pub children: Seq<OrgNode>,
}

/// Index of the last department among the first `n` whose id is `id`, or -1.
pub open spec fn last_index(ds: Seq<Department>, id: u128, n: int) -> int
    decreases n,
{
    if n <= 0 {
        -1
    } else if ds[n - 1].id == id {
        n - 1
    } else {
        last_index(ds, id, n - 1)
    }
}

/// Position `j` holds the occurrence of its id that counts (its last one).
pub open spec fn is_kept(ds: Seq<Department>, j: int) -> bool {
    0 <= j < ds.len() && last_index(ds, ds[j].id, ds.len() as int) == j
}

/// Position of the node that `ds[j]` hangs under, or -1 when it is a root:
/// its parent's id must occur, last, before position `j`.
pub open spec fn parent_index(ds: Seq<Department>, j: int) -> int {
    match ds[j].parent_id {
        Some(p) => {
            let k = last_index(ds, p, ds.len() as int);
            if 0 <= k < j {
                k
            } else {
                -1
            }
        },
        None => -1,
    }
}

/// The subtree rooted at position `k`.
pub open spec fn tree_of(ds: Seq<Department>, k: int) -> OrgNode
    decreases ds.len() - k, 1int,
{
    OrgNode { department: ds[k], children: children_from(ds, k, k + 1) }
}

/// Subtrees of the kept positions in `lo..` that hang under position `k`, in order.
pub open spec fn children_from(ds: Seq<Department>, k: int, lo: int) -> Seq<OrgNode>
    decreases ds.len() - lo + 1, 0int,
{
    if lo < 0 || lo >= ds.len() {
        Seq::empty()
    } else {
        let rest = children_from(ds, k, lo + 1);
        if is_kept(ds, lo) && parent_index(ds, lo) == k {
            seq![tree_of(ds, lo)] + rest
        } else {
            rest
        }
    }
}

/// Subtrees of the kept positions in `lo..` that are roots, in order.
pub open spec fn roots_from(ds: Seq<Department>, lo: int) -> Seq<OrgNode>
    decreases ds.len() - lo,
{
    if lo < 0 || lo >= ds.len() {
        Seq::empty()
    } else {
        let rest = roots_from(ds, lo + 1);
        if is_kept(ds, lo) && parent_index(ds, lo) == -1 {
            seq![tree_of(ds, lo)] + rest
        } else {
            rest
        }
    }
}

/// The organisation chart of a flat department list.
pub open spec fn org_forest(ds: Seq<Department>) -> Seq<OrgNode> {
    roots_from(ds, 0)
}

impl DepartmentTreeNode {
    /// The mathematical form of this node and of everything under it.
    pub open spec fn node_view(self) -> OrgNode
        decreases self,
    {
        OrgNode { department: self.department, children: forest_view(self.children@) }
    }
}

/// The mathematical form of a list of nodes.
pub open spec fn forest_view(s: Seq<DepartmentTreeNode>) -> Seq<OrgNode>
    decreases s,
{
    if s.len() == 0 {
        Seq::empty()
    } else {
        forest_view(s.subrange(0, s.len() - 1)).push(s[s.len() - 1].node_view())
    }
}

proof fn lemma_forest_view_prepend(x: DepartmentTreeNode, s: Seq<DepartmentTreeNode>)
    ensures
        forest_view(seq![x] + s) == seq![x.node_view()] + forest_view(s),
    decreases s.len(),
{
    let t = seq![x] + s;
    if s.len() == 0 {
        assert(t.subrange(0, t.len() - 1) =~= Seq::<DepartmentTreeNode>::empty());
        assert(forest_view(Seq::<DepartmentTreeNode>::empty()) == Seq::<OrgNode>::empty());
        assert(forest_view(t) =~= seq![x.node_view()]);
    } else {
        let s0 = s.subrange(0, s.len() - 1);
        lemma_forest_view_prepend(x, s0);
        assert(t.subrange(0, t.len() - 1) =~= seq![x] + s0);
        assert(t[t.len() - 1] == s[s.len() - 1]);
        assert(forest_view(t) =~= seq![x.node_view()] + forest_view(s));
    }
}

/// Turns the flat department list into the nested organisation chart.
pub fn build_tree_structure(departments: Vec<Department>) -> (roots: Vec<DepartmentTreeNode>)
    ensures
        forest_view(roots@) == org_forest(departments@),
{
    let ghost ds = departments@;
    let n = departments.len();
    if n == 0 {
        let roots: Vec<DepartmentTreeNode> = Vec::new();
        assert(forest_view(roots@) == Seq::<OrgNode>::empty());
        return roots;
    }
    // Index every id by the position of its last occurrence.
    let mut last: HashMap<u128, usize> = HashMap::new();
    let mut i: usize = 0;
    while i < n
        invariant
            n == ds.len(),
            departments@ == ds,
            i <= n,
            forall|id: u128| #[trigger]
                last@.contains_key(id) <==> last_index(ds, id, i as int) >= 0,
            forall|id: u128| #[trigger]
                last@.contains_key(id) ==> last@[id] == last_index(ds, id, i as int),
        decreases n - i,
    {
        last.insert(departments[i].id, i);
        proof {
            assert forall|id: u128| #[trigger]
                last@.contains_key(id) <==> last_index(ds, id, i + 1) >= 0 by {
                reveal_with_fuel(last_index, 2);
            }
            assert forall|id: u128| #[trigger]
                last@.contains_key(id) implies last@[id] == last_index(ds, id, i + 1) by {
                reveal_with_fuel(last_index, 2);
            }
        }
        i = i + 1;
    }
    // One list of pending children per position.
    let mut pending: Vec<Vec<DepartmentTreeNode>> = Vec::new();
    i = 0;
    while i < n
        invariant
            i <= n,
            pending@.len() == i,
            forall|k: int| 0 <= k < i ==> (#[trigger] pending@[k])@.len() == 0,
        decreases n - i,
    {
        pending.push(Vec::new());
        i = i + 1;
    }
    let mut roots: Vec<DepartmentTreeNode> = Vec::new();
    let mut rest = departments;
    proof {
        assert forall|k: int| 0 <= k < n implies forest_view((#[trigger] pending@[k])@)
            == children_from(ds, k, n as int) by {
            assert(forest_view(pending@[k]@) == Seq::<OrgNode>::empty());
        }
        assert(ds.subrange(0, n as int) =~= ds);
    }
    // Walk from the last position back to the first; every subtree under a
    // position is complete by the time that position is reached.
    while rest.len() > 0
        invariant
            n == ds.len(),
            rest@.len() <= n,
            rest@ == ds.subrange(0, rest@.len() as int),
            pending@.len() == rest@.len(),
            forall|k: int| 0 <= k < rest@.len() ==> forest_view((#[trigger] pending@[k])@)
                == children_from(ds, k, rest@.len() as int),
            forest_view(roots@) == roots_from(ds, rest@.len() as int),
            forall|id: u128| #[trigger]
                last@.contains_key(id) <==> last_index(ds, id, n as int) >= 0,
            forall|id: u128| #[trigger]
                last@.contains_key(id) ==> last@[id] == last_index(ds, id, n as int),
        decreases rest@.len(),
    {
        let j = rest.len() - 1;
        let ghost old_pending = pending@;
        let ghost old_roots = roots@;
        let d = rest.pop().unwrap();
        let kids = pending.pop().unwrap();
        assert(d == ds[j as int]);
        let kept = match last.get(&d.id) {
            Some(lj) => *lj == j,
            None => false,
        };
        proof {
            assert(last_index(ds, ds[j as int].id, n as int) >= 0) by {
                lemma_last_index_found(ds, j as int, n as int);
            }
            assert(kept == is_kept(ds, j as int));
        }
        if kept {
            let parent_slot: Option<usize> = match d.parent_id {
                Some(p) => match last.get(&p) {
                    Some(k) => if *k < j {
                        Some(*k)
                    } else {
                        None
                    },
                    None => None,
                },
                None => None,
            };
            assert(match parent_slot {
                Some(k) => parent_index(ds, j as int) == k,
                None => parent_index(ds, j as int) == -1,
            });
            let node = DepartmentTreeNode { department: d, children: kids };
            assert(node.node_view() == tree_of(ds, j as int));
            match parent_slot {
                Some(k) => {
                    pending[k].insert(0, node);
                    proof {
                        lemma_forest_view_prepend(node, old_pending[k as int]@);
                        assert(pending@[k as int]@ =~= seq![node] + old_pending[k as int]@);
                        assert forall|m: int| 0 <= m < j implies forest_view(
                            (#[trigger] pending@[m])@,
                        ) == children_from(ds, m, j as int) by {
                            if m != k {
                                assert(pending@[m] == old_pending[m]);
                            }
                        }
                        assert(roots_from(ds, j as int) == roots_from(ds, j + 1));
                    }
                },
                None => {
                    roots.insert(0, node);
                    proof {
                        lemma_forest_view_prepend(node, old_roots);
                        assert(roots@ =~= seq![node] + old_roots);
                        assert forall|m: int| 0 <= m < j implies forest_view(
                            (#[trigger] pending@[m])@,
                        ) == children_from(ds, m, j as int) by {
                            assert(pending@[m] == old_pending[m]);
                        }
                    }
                },
            }
        } else {
            proof {
                assert forall|m: int| 0 <= m < j implies forest_view((#[trigger] pending@[m])@)
                    == children_from(ds, m, j as int) by {
                    assert(pending@[m] == old_pending[m]);
                }
                assert(roots_from(ds, j as int) == roots_from(ds, j + 1));
            }
        }
        assert(rest@ =~= ds.subrange(0, j as int));
    }
    roots
}

proof fn lemma_last_index_found(ds: Seq<Department>, j: int, n: int)
    requires
        0 <= j < n <= ds.len(),
    ensures
        j <= last_index(ds, ds[j].id, n) < n,
        ds[last_index(ds, ds[j].id, n)].id == ds[j].id,
    decreases n,
{
    if ds[n - 1].id != ds[j].id {
        lemma_last_index_found(ds, j, n - 1);
    }
}

proof fn lemma_children_contain(ds: Seq<Department>, k: int, lo: int, j: int)
    requires
        0 <= lo <= j < ds.len(),
        is_kept(ds, j),
        parent_index(ds, j) == k,
    ensures
        children_from(ds, k, lo).contains(tree_of(ds, j)),
    decreases j - lo,
{
    if lo == j {
        assert(children_from(ds, k, lo)[0] == tree_of(ds, j));
    } else {
        lemma_children_contain(ds, k, lo + 1, j);
        let rest = children_from(ds, k, lo + 1);
        let i = choose|i: int| 0 <= i < rest.len() && rest[i] == tree_of(ds, j);
        if is_kept(ds, lo) && parent_index(ds, lo) == k {
            assert(children_from(ds, k, lo)[i + 1] == tree_of(ds, j));
        }
    }
}

proof fn lemma_roots_contain(ds: Seq<Department>, lo: int, j: int)
    requires
        0 <= lo <= j < ds.len(),
        is_kept(ds, j),
        parent_index(ds, j) == -1,
    ensures
        roots_from(ds, lo).contains(tree_of(ds, j)),
    decreases j - lo,
{
    if lo == j {
        assert(roots_from(ds, lo)[0] == tree_of(ds, j));
    } else {
        lemma_roots_contain(ds, lo + 1, j);
        let rest = roots_from(ds, lo + 1);
        let i = choose|i: int| 0 <= i < rest.len() && rest[i] == tree_of(ds, j);
        if is_kept(ds, lo) && parent_index(ds, lo) == -1 {
            assert(roots_from(ds, lo)[i + 1] == tree_of(ds, j));
        }
    }
}

/// No department is lost: the occurrence of each id that counts (its last)
/// is a root of the chart when its parent does not come before it, and
/// otherwise hangs directly under its parent.
pub proof fn law_every_department_placed(ds: Seq<Department>, j: int)
    requires
        is_kept(ds, j),
    ensures
        parent_index(ds, j) == -1 ==> org_forest(ds).contains(tree_of(ds, j)),
        parent_index(ds, j) != -1 ==> tree_of(ds, parent_index(ds, j)).children.contains(
            tree_of(ds, j),
        ),
{
    if parent_index(ds, j) == -1 {
        lemma_roots_contain(ds, 0, j);
    } else {
        let k = parent_index(ds, j);
        lemma_children_contain(ds, k, k + 1, j);
    }
}

proof fn lemma_children_parented(ds: Seq<Department>, k: int, lo: int)
    requires
        0 <= k < ds.len(),
    ensures
        forall|i: int| 0 <= i < children_from(ds, k, lo).len() ==>
            (#[trigger] children_from(ds, k, lo)[i]).department.parent_id == Some(ds[k].id),
    decreases ds.len() - lo,
{
    if 0 <= lo < ds.len() {
        lemma_children_parented(ds, k, lo + 1);
        let c = children_from(ds, k, lo);
        let rest = children_from(ds, k, lo + 1);
        if is_kept(ds, lo) && parent_index(ds, lo) == k {
            let p = ds[lo].parent_id->Some_0;
            lemma_last_index_found_any(ds, p, ds.len() as int);
            assert(last_index(ds, p, ds.len() as int) == k);
            assert(c[0] == tree_of(ds, lo));
            assert(tree_of(ds, lo).department == ds[lo]);
            assert forall|i: int| 0 <= i < c.len() implies (#[trigger] c[i]).department.parent_id
                == Some(ds[k].id) by {
                if i > 0 {
                    assert(c[i] == rest[i - 1]);
                }
            }
        }
    }
}

proof fn lemma_last_index_found_any(ds: Seq<Department>, id: u128, n: int)
    requires
        0 <= n <= ds.len(),
    ensures
        last_index(ds, id, n) >= 0 ==> last_index(ds, id, n) < n && ds[last_index(ds, id, n)].id == id,
    decreases n,
{
    if n > 0 && ds[n - 1].id != id {
        lemma_last_index_found_any(ds, id, n - 1);
    }
}

/// Every department in a node's children names that node's department as its parent.
pub proof fn law_children_name_their_parent(ds: Seq<Department>, k: int)
    requires
        0 <= k < ds.len(),
    ensures
        forall|i: int| 0 <= i < tree_of(ds, k).children.len() ==>
            (#[trigger] tree_of(ds, k).children[i]).department.parent_id == Some(ds[k].id),
{
    lemma_children_parented(ds, k, k + 1);
}

/// The departments of a node and of everything under it, parent first.
pub open spec fn node_departments(n: OrgNode) -> Seq<Department>
    decreases n,
{
    seq![n.department] + forest_departments(n.children)
}

/// The departments of a list of nodes and of everything under them, in order.
pub open spec fn forest_departments(s: Seq<OrgNode>) -> Seq<Department>
    decreases s,
{
    if s.len() == 0 {
        Seq::empty()
    } else {
        node_departments(s[0]) + forest_departments(s.subrange(1, s.len() as int))
    }
}

/// How many departments of `s` have the id `id`.
pub open spec fn count_id(s: Seq<Department>, id: u128) -> nat
    decreases s.len(),
{
    if s.len() == 0 {
        0
    } else {
        (if s[0].id == id {
            1nat
        } else {
            0nat
        }) + count_id(s.subrange(1, s.len() as int), id)
    }
}

proof fn lemma_count_id_concat(a: Seq<Department>, b: Seq<Department>, id: u128)
    ensures
        count_id(a + b, id) == count_id(a, id) + count_id(b, id),
    decreases a.len(),
{
    if a.len() > 0 {
        lemma_count_id_concat(a.subrange(1, a.len() as int), b, id);
        assert((a + b).subrange(1, (a + b).len() as int) =~= a.subrange(1, a.len() as int) + b);
        assert((a + b)[0] == a[0]);
    } else {
        assert(a + b =~= b);
    }
}

proof fn lemma_forest_departments_prepend(x: OrgNode, rest: Seq<OrgNode>)
    ensures
        forest_departments(seq![x] + rest) == node_departments(x) + forest_departments(rest),
{
    let t = seq![x] + rest;
    assert(t[0] == x);
    assert(t.subrange(1, t.len() as int) =~= rest);
}

/// Walking up from position `p` through parents, the first position whose
/// parent is `k`; -1 when the walk reaches a root first.
pub open spec fn climb(ds: Seq<Department>, p: int, k: int) -> int
    decreases p,
{
    if p < 0 || p >= ds.len() {
        -1
    } else if parent_index(ds, p) == k {
        p
    } else if parent_index(ds, p) < 0 {
        -1
    } else {
        climb(ds, parent_index(ds, p), k)
    }
}

proof fn lemma_parent_kept(ds: Seq<Department>, p: int)
    requires
        0 <= p < ds.len(),
        parent_index(ds, p) >= 0,
    ensures
        parent_index(ds, p) < p,
        is_kept(ds, parent_index(ds, p)),
{
    let id = ds[p].parent_id->Some_0;
    lemma_last_index_found_any(ds, id, ds.len() as int);
}

proof fn lemma_climb_props(ds: Seq<Department>, p: int, k: int)
    requires
        climb(ds, p, k) >= 0,
    ensures
        k < climb(ds, p, k) <= p < ds.len(),
        parent_index(ds, climb(ds, p, k)) == k,
        climb(ds, p, k) == p || is_kept(ds, climb(ds, p, k)),
    decreases p,
{
    if parent_index(ds, p) != k {
        let q = parent_index(ds, p);
        lemma_parent_kept(ds, p);
        lemma_climb_props(ds, q, k);
        if climb(ds, q, k) == q {
            lemma_parent_kept(ds, p);
        }
    }
}

proof fn lemma_climb_through(ds: Seq<Department>, p: int, c: int, k: int)
    requires
        0 <= c < ds.len(),
        parent_index(ds, c) == k,
        climb(ds, p, c) >= 0,
    ensures
        climb(ds, p, k) == c,
    decreases p,
{
    lemma_climb_props(ds, p, c);
    if k >= 0 {
        lemma_parent_kept(ds, c);
    }
    if parent_index(ds, p) != c {
        let q = parent_index(ds, p);
        lemma_parent_kept(ds, p);
        lemma_climb_through(ds, q, c, k);
        lemma_climb_props(ds, q, c);
    } else {
        assert(climb(ds, c, k) == c);
    }
}

proof fn lemma_climb_below(ds: Seq<Department>, p: int, k: int)
    requires
        climb(ds, p, k) >= 0,
        climb(ds, p, k) != p,
    ensures
        climb(ds, p, climb(ds, p, k)) >= 0,
    decreases p,
{
    let c = climb(ds, p, k);
    let q = parent_index(ds, p);
    lemma_climb_props(ds, p, k);
    lemma_parent_kept(ds, p);
    if q != c {
        lemma_climb_below(ds, q, k);
        lemma_climb_props(ds, q, c);
    }
}

proof fn lemma_climb_reaches_root(ds: Seq<Department>, p: int)
    requires
        0 <= p < ds.len(),
    ensures
        climb(ds, p, -1) >= 0,
    decreases p,
{
    if parent_index(ds, p) != -1 {
        lemma_parent_kept(ds, p);
        lemma_climb_reaches_root(ds, parent_index(ds, p));
    }
}

proof fn lemma_tree_counts(ds: Seq<Department>, k: int, id: u128)
    requires
        is_kept(ds, k),
    ensures
        count_id(node_departments(tree_of(ds, k)), id) == (if last_index(ds, id, ds.len() as int) == k
            || (last_index(ds, id, ds.len() as int) >= 0 && climb(
            ds,
            last_index(ds, id, ds.len() as int),
            k,
        ) >= 0) {
            1nat
        } else {
            0nat
        }),
    decreases ds.len() - k, 1int,
{
    let q = last_index(ds, id, ds.len() as int);
    lemma_last_index_found_any(ds, id, ds.len() as int);
    lemma_children_counts(ds, k, k + 1, id);
    let t = tree_of(ds, k);
    lemma_count_id_concat(seq![t.department], forest_departments(t.children), id);
    let one = seq![t.department];
    assert(one.subrange(1, 1) =~= Seq::<Department>::empty());
    assert(count_id(Seq::<Department>::empty(), id) == 0);
    assert(t.department == ds[k]);
    assert(count_id(one, id) == if ds[k].id == id { 1nat } else { 0nat });
    if q >= 0 && climb(ds, q, k) >= 0 {
        lemma_climb_props(ds, q, k);
    }
    if ds[k].id == id {
        assert(q == k);
    }
}

proof fn lemma_children_counts(ds: Seq<Department>, k: int, lo: int, id: u128)
    requires
        -1 <= k < ds.len(),
        0 <= lo,
    ensures
        count_id(forest_departments(children_from(ds, k, lo)), id) == (if last_index(
            ds,
            id,
            ds.len() as int,
        ) >= 0 && climb(ds, last_index(ds, id, ds.len() as int), k) >= lo {
            1nat
        } else {
            0nat
        }),
    decreases ds.len() - lo + 1, 0int,
{
    let q = last_index(ds, id, ds.len() as int);
    lemma_last_index_found_any(ds, id, ds.len() as int);
    if q >= 0 && climb(ds, q, k) >= 0 {
        lemma_climb_props(ds, q, k);
    }
    if lo < ds.len() {
        lemma_children_counts(ds, k, lo + 1, id);
        let rest = children_from(ds, k, lo + 1);
        if is_kept(ds, lo) && parent_index(ds, lo) == k {
            lemma_tree_counts(ds, lo, id);
            lemma_forest_departments_prepend(tree_of(ds, lo), rest);
            lemma_count_id_concat(node_departments(tree_of(ds, lo)), forest_departments(rest), id);
            if q >= 0 && q != lo && climb(ds, q, lo) >= 0 {
                lemma_climb_through(ds, q, lo, k);
            }
            if q >= 0 && climb(ds, q, k) == lo && q != lo {
                lemma_climb_below(ds, q, k);
            }
        }
    } else {
        assert(forest_departments(children_from(ds, k, lo)) =~= Seq::<Department>::empty());
    }
}

proof fn lemma_roots_are_children(ds: Seq<Department>, lo: int)
    ensures
        roots_from(ds, lo) == children_from(ds, -1, lo),
    decreases ds.len() - lo,
{
    if 0 <= lo < ds.len() {
        lemma_roots_are_children(ds, lo + 1);
    }
}

/// Every id of the department list appears exactly once in the chart, and
/// no other does.
pub proof fn law_each_department_once(ds: Seq<Department>, id: u128)
    ensures
        count_id(forest_departments(org_forest(ds)), id) == (if exists|j: int|
            0 <= j < ds.len() && #[trigger] ds[j].id == id {
            1nat
        } else {
            0nat
        }),
{
    let q = last_index(ds, id, ds.len() as int);
    lemma_roots_are_children(ds, 0);
    lemma_children_counts(ds, -1, 0, id);
    lemma_last_index_found_any(ds, id, ds.len() as int);
    if q >= 0 {
        lemma_climb_reaches_root(ds, q);
        assert(ds[q].id == id);
    }
    if exists|j: int| 0 <= j < ds.len() && #[trigger] ds[j].id == id {
        let j = choose|j: int| 0 <= j < ds.len() && #[trigger] ds[j].id == id;
        lemma_last_index_found(ds, j, ds.len() as int);
    }
}

} // verus!
