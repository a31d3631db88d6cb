//! The tree form of a character: properties placed under their parents.
//!
//! A node owns its children outright; a child is keyed by its own id and ids
//! are unique among siblings. The flat list is rebuilt from a forest by a
//! pre-order walk, each node before its children.

use vstd::prelude::*;

verus! {

use std::collections::HashMap;
use crate::generic_model::{prop_display_name, CharacterVar, CreatureInfo, Icon, Identifier, PropType};
use crate::flat_model::{sort_by_order, FlatCharacter, FlatProp};
use crate::text::string_eq_str;

broadcast use vstd::std_specs::vec::group_vec_axioms, vstd::seq::group_seq_axioms;

/// A property as it appears on the tree, children built under parents.
#[derive(PartialEq, Debug)]
pub struct TreeProp {
    pub id: String,
    pub prop_type: PropType,
    pub tags: Vec<String>,
    pub order: usize,
    pub parent: Identifier,
    pub ancestors: Vec<Identifier>,
    pub library_node_id: Option<String>,
    pub color: Option<String>,
    pub icon: Option<Icon>,
    pub library_tags: Vec<String>,
    pub deactivated_by_toggle: Option<bool>,
    pub deactivated_by_ancestor: Option<bool>,
    pub inactive: bool,
    pub removed: bool,
    pub removed_at: Option<String>,
    pub removed_with: Option<String>,
    pub dirty: Option<bool>,
    pub migration_error: Vec<String>,
    pub children: Vec<TreeProp>,
}

/// The flat record a tree node stands for, its children set aside.
pub open spec fn tree_to_flat(t: TreeProp) -> FlatProp {
    FlatProp {
        id: t.id,
        prop_type: t.prop_type,
        tags: t.tags,
        order: t.order,
        parent: t.parent,
        ancestors: t.ancestors,
        library_node_id: t.library_node_id,
        color: t.color,
        icon: t.icon,
        library_tags: t.library_tags,
        deactivated_by_toggle: t.deactivated_by_toggle,
        deactivated_by_ancestor: t.deactivated_by_ancestor,
        inactive: t.inactive,
        removed: t.removed,
        removed_at: t.removed_at,
        removed_with: t.removed_with,
        dirty: t.dirty,
        migration_error: t.migration_error,
    }
}

/// The pre-order serialization of the trees of `s` from position `i` on:
/// each node, then its children, then the next tree.
pub open spec fn preorder_from(s: Seq<TreeProp>, i: int) -> Seq<FlatProp>
    decreases s, s.len() - i,
{
    if i < 0 || i >= s.len() {
        Seq::<FlatProp>::empty()
    } else {
        seq![tree_to_flat(s[i])] + preorder_from(s[i].children@, 0) + preorder_from(s, i + 1)
    }
}

/// The pre-order serialization of one tree: the node, then its children's
/// serializations in order.
pub open spec fn preorder(t: TreeProp) -> Seq<FlatProp> {
    seq![tree_to_flat(t)] + preorder_from(t.children@, 0)
}

/// The pre-order serialization of a forest, tree by tree.
pub open spec fn preorder_forest(s: Seq<TreeProp>) -> Seq<FlatProp> {
    preorder_from(s, 0)
}

/// Serializing from position `i` is serializing the tree at `i`, then the
/// rest.
pub proof fn lemma_preorder_step(s: Seq<TreeProp>, i: int)
    requires
        0 <= i < s.len(),
    ensures
        preorder_from(s, i) == preorder(s[i]) + preorder_from(s, i + 1),
{
    assert(seq![tree_to_flat(s[i])] + preorder_from(s[i].children@, 0) + preorder_from(s, i + 1)
        =~= (seq![tree_to_flat(s[i])] + preorder_from(s[i].children@, 0)) + preorder_from(
        s,
        i + 1,
    ));
}

/// The first position among `s` whose node has id `id`, or `s.len()` when
/// there is none.
pub open spec fn find_child(s: Seq<TreeProp>, id: Seq<char>) -> int
    decreases s.len(),
{
    if s.len() == 0 {
        0
    } else if s[0].id@ == id {
        0
    } else {
        1 + find_child(s.skip(1), id)
    }
}

proof fn lemma_find_child_range(s: Seq<TreeProp>, id: Seq<char>)
    ensures
        0 <= find_child(s, id) <= s.len(),
        find_child(s, id) < s.len() ==> s[find_child(s, id)].id@ == id,
        forall|j: int| 0 <= j < find_child(s, id) ==> (#[trigger] s[j]).id@ != id,
    decreases s.len(),
{
    if s.len() > 0 && s[0].id@ != id {
        lemma_find_child_range(s.skip(1), id);
        assert forall|j: int| 0 <= j < find_child(s, id) implies (#[trigger] s[j]).id@
            != id by {
            if j > 0 {
                assert(s.skip(1)[j - 1] == s[j]);
            }
        }
    }
}

/// The sibling list `s` with `c` entered under its id: replacing the first
/// sibling of the same id, or appended at the end when there is none.
pub open spec fn put_child(s: Seq<TreeProp>, c: TreeProp) -> Seq<TreeProp> {
    if find_child(s, c.id@) < s.len() {
        s.update(find_child(s, c.id@), c)
    } else {
        s.push(c)
    }
}

/// Whether `t` is an empty placeholder node for the id `key`, its children
/// set aside: every other field holds its default value.
pub open spec fn is_placeholder_flat(t: TreeProp, key: String) -> bool {
    &&& t.id == key
    &&& (t.prop_type matches PropType::Folder { name, group_stats, hide_stats_group, tab, location }
        && name@ == Seq::<char>::empty() && !group_stats && hide_stats_group is None
        && tab is None && location is None)
    &&& t.tags@ == Seq::<String>::empty()
    &&& t.order == 0
    &&& t.parent.id@ == Seq::<char>::empty()
    &&& t.parent.collection@ == Seq::<char>::empty()
    &&& t.ancestors@ == Seq::<Identifier>::empty()
    &&& t.library_node_id is None
    &&& t.color is None
    &&& t.icon is None
    &&& t.library_tags@ == Seq::<String>::empty()
    &&& t.deactivated_by_toggle is None
    &&& t.deactivated_by_ancestor is None
    &&& !t.inactive
    &&& !t.removed
    &&& t.removed_at is None
    &&& t.removed_with is None
    &&& t.dirty is None
    &&& t.migration_error@ == Seq::<String>::empty()
}

/// Whether `t` is the chain of placeholder nodes a record insertion creates
/// under a missing id of its path: placeholders keyed by `path[at..]`, one
/// under the other, with `prop` as the innermost leaf.
pub open spec fn is_fresh_branch(t: TreeProp, path: Seq<String>, at: int, prop: TreeProp) -> bool
    decreases path.len() - at,
{
    if at < 0 || at >= path.len() {
        t == prop
    } else {
        &&& is_placeholder_flat(t, path[at])
        &&& t.children@.len() == 1
        &&& is_fresh_branch(t.children@[0], path, at + 1, prop)
    }
}

/// How a node changes when `prop` is inserted at the end of `path[at..]`
/// below it: descend the existing child of the path's next id, or grow a
/// fresh placeholder branch when there is none; at the path's end the record
/// enters the children keyed by its own id.
pub open spec fn is_insert_result(
    t0: TreeProp,
    t1: TreeProp,
    path: Seq<String>,
    at: int,
    prop: TreeProp,
) -> bool
    decreases path.len() - at,
{
    if at < 0 || at >= path.len() {
        &&& tree_to_flat(t1) == tree_to_flat(t0)
        &&& t1.children@ == put_child(t0.children@, prop)
    } else {
        let j = find_child(t0.children@, path[at]@);
        &&& tree_to_flat(t1) == tree_to_flat(t0)
        &&& if j < t0.children@.len() {
            &&& t1.children@.len() == t0.children@.len()
            &&& t1.children@ == t0.children@.update(j, t1.children@[j])
            &&& is_insert_result(t0.children@[j], t1.children@[j], path, at + 1, prop)
        } else {
            &&& t1.children@.len() == t0.children@.len() + 1
            &&& t1.children@.subrange(0, t0.children@.len() as int) == t0.children@
            &&& is_fresh_branch(t1.children@[t0.children@.len() as int], path, at, prop)
        }
    }
}

/// Build an empty placeholder node for the id `key`.
fn placeholder(key: String) -> (r: TreeProp)
    ensures
        is_placeholder_flat(r, key),
        r.children@ == Seq::<TreeProp>::empty(),
{
    TreeProp {
        id: key,
        prop_type: PropType::default(),
        tags: Vec::new(),
        order: 0,
        parent: Identifier { id: String::new(), collection: String::new() },
        ancestors: Vec::new(),
        library_node_id: None,
        color: None,
        icon: None,
        library_tags: Vec::new(),
        deactivated_by_toggle: None,
        deactivated_by_ancestor: None,
        inactive: false,
        removed: false,
        removed_at: None,
        removed_with: None,
        dirty: None,
        migration_error: Vec::new(),
        children: Vec::new(),
    }
}

impl TreeProp {
    /// Build a tree prop from a flat prop, with no children.
    pub fn from_flat_prop(p: FlatProp) -> (r: TreeProp)
        ensures
            tree_to_flat(r) == p,
            r.children@ == Seq::<TreeProp>::empty(),
    {
        let r = TreeProp {
            id: p.id,
            prop_type: p.prop_type,
            tags: p.tags,
            order: p.order,
            parent: p.parent,
            ancestors: p.ancestors,
            library_node_id: p.library_node_id,
            color: p.color,
            icon: p.icon,
            library_tags: p.library_tags,
            deactivated_by_toggle: p.deactivated_by_toggle,
            deactivated_by_ancestor: p.deactivated_by_ancestor,
            inactive: p.inactive,
            removed: p.removed,
            removed_at: p.removed_at,
            removed_with: p.removed_with,
            dirty: p.dirty,
            migration_error: p.migration_error,
            children: Vec::new(),
        };
        r
    }

    fn into_flat_prop(self) -> (r: (FlatProp, Vec<TreeProp>))
        ensures
            r.0 == tree_to_flat(self),
            r.1@ == self.children@,
    {
        (
            FlatProp {
                id: self.id,
                prop_type: self.prop_type,
                tags: self.tags,
                order: self.order,
                parent: self.parent,
                ancestors: self.ancestors,
                library_node_id: self.library_node_id,
                color: self.color,
                icon: self.icon,
                library_tags: self.library_tags,
                deactivated_by_toggle: self.deactivated_by_toggle,
                deactivated_by_ancestor: self.deactivated_by_ancestor,
                inactive: self.inactive,
                removed: self.removed,
                removed_at: self.removed_at,
                removed_with: self.removed_with,
                dirty: self.dirty,
                migration_error: self.migration_error,
            },
            self.children,
        )
    }

    /// Consume this property, appending it and then all its descendants to
    /// the given vector in pre-order.
    pub fn flatten(self, working: &mut Vec<FlatProp>)
        ensures
            final(working)@ == old(working)@ + preorder(self),
        decreases self,
    {
        let ghost whole = self;
        let (flt, mut children) = self.into_flat_prop();
        let ghost children0 = children@;
        working.push(flt);
        proof {
            assert(children0.subrange(0, children0.len() as int) =~= children0);
            assert(working@ + preorder_from(children0, 0) =~= old(working)@ + preorder(whole));
        }
        let ghost done: int = 0;
        while children.len() > 0
            invariant
                0 <= done <= children0.len(),
                children@ == children0.subrange(done, children0.len() as int),
                children0 == whole.children@,
                whole == self,
                working@ + preorder_from(children0, done) == old(working)@ + preorder(whole),
            decreases children@.len(),
        {
            let ghost pre = working@;
            let c = children.remove(0);
            proof {
                assert(c == children0[done]);
                assert(decreases_to!(whole => c));
            }
            c.flatten(working);
            proof {
                assert(children@ =~= children0.subrange(done + 1, children0.len() as int));
                lemma_preorder_step(children0, done);
                assert((pre + preorder(children0[done])) + preorder_from(children0, done + 1)
                    =~= pre + (preorder(children0[done]) + preorder_from(children0, done + 1)));
            }
            proof {
                done = done + 1;
            }
        }
        proof {
            assert(preorder_from(children0, done) == Seq::<FlatProp>::empty());
            assert(working@ + Seq::<FlatProp>::empty() =~= working@);
        }
    }

    /// Add a child to this node, keyed by the child's own id: an existing
    /// child with the same id is replaced in place, otherwise the child is
    /// appended.
    pub fn add_child(&mut self, child: TreeProp)
        ensures
            tree_to_flat(*final(self)) == tree_to_flat(*old(self)),
            final(self).children@ == put_child(old(self).children@, child),
    {
        proof {
            lemma_find_child_range(self.children@, child.id@);
        }
        let n: usize = self.children.len();
        let mut j: usize = 0;
        while j < n
            invariant
                n == self.children@.len(),
                j <= n,
                *self == *old(self),
                forall|k: int| 0 <= k < j ==> (#[trigger] self.children@[k]).id@ != child.id@,
        decreases n - j,
        {
            if string_eq_str(&self.children[j].id, child.id.as_str()) {
                proof {
                    lemma_find_child_range(self.children@, child.id@);
                    assert(find_child(self.children@, child.id@) == j) by {
                        lemma_find_child_agrees(self.children@, child.id@, j as int);
                    }
                }
                self.children[j] = child;
                return;
            }
            j = j + 1;
        }
        proof {
            lemma_find_child_agrees(self.children@, child.id@, n as int);
        }
        self.children.push(child);
    }

    /// Recursively insert a property below this node: descend the ids of
    /// `rel_path` from position `at` on, creating empty placeholder nodes for
    /// missing intermediates, and enter the property as a child at the
    /// path's end, keyed by its own id.
    pub fn recurse_insert(&mut self, rel_path: &Vec<String>, at: usize, prop: TreeProp)
        requires
            at <= rel_path@.len(),
        ensures
            is_insert_result(*old(self), *final(self), rel_path@, at as int, prop),
        decreases rel_path@.len() - at,
    {
        if at == rel_path.len() {
            self.add_child(prop);
            return;
        }
        let key = &rel_path[at];
        let j: usize = find_child_index(&self.children, key.as_str());
        proof {
            lemma_find_child_range(self.children@, key@);
        }
        if j < self.children.len() {
            let mut child = self.children.remove(j);
            let ghost child0 = child;
            child.recurse_insert(rel_path, at + 1, prop);
            let ghost child1 = child;
            self.children.insert(j, child);
            proof {
                assert(self.children@ =~= old(self).children@.update(j as int, child1));
            }
        } else {
            let mut ph = placeholder(key.clone());
            let ghost ph0 = ph;
            ph.recurse_insert(rel_path, at + 1, prop);
            proof {
                lemma_fresh_after_insert(ph0, ph, rel_path@, at as int, prop);
            }
            self.children.push(ph);
            proof {
                assert(self.children@.subrange(0, old(self).children@.len() as int)
                    =~= old(self).children@);
            }
        }
    }

    /// Borrow the children of this node.
    pub fn children(&self) -> (r: &Vec<TreeProp>)
        ensures
            r@ == self.children@,
    {
        &self.children
    }

    /// Take the children out from the node, leaving nothing behind.
    pub fn take_children(&mut self) -> (r: Vec<TreeProp>)
        ensures
            r@ == old(self).children@,
            tree_to_flat(*final(self)) == tree_to_flat(*old(self)),
            final(self).children@ == Seq::<TreeProp>::empty(),
    {
        let mut out: Vec<TreeProp> = Vec::new();
        core::mem::swap(&mut self.children, &mut out);
        out
    }
}

/// The first position of a node with id `key`, or the length when none has
/// it.
fn find_child_index(v: &Vec<TreeProp>, key: &str) -> (r: usize)
    ensures
        r as int == find_child(v@, key@),
{
    let n: usize = v.len();
    let mut j: usize = 0;
    while j < n
        invariant
            n == v@.len(),
            j <= n,
            forall|k: int| 0 <= k < j ==> (#[trigger] v@[k]).id@ != key@,
        decreases n - j,
    {
        if string_eq_str(&v[j].id, key) {
            proof {
                lemma_find_child_agrees(v@, key@, j as int);
            }
            return j;
        }
        j = j + 1;
    }
    proof {
        lemma_find_child_agrees(v@, key@, n as int);
    }
    n
}

/// A placeholder that an insertion just descended into carries exactly the
/// fresh branch the insertion leaves behind.
proof fn lemma_fresh_after_insert(
    ph0: TreeProp,
    ph1: TreeProp,
    path: Seq<String>,
    at: int,
    prop: TreeProp,
)
    requires
        0 <= at < path.len(),
        is_placeholder_flat(ph0, path[at]),
        ph0.children@ == Seq::<TreeProp>::empty(),
        is_insert_result(ph0, ph1, path, at + 1, prop),
    ensures
        is_fresh_branch(ph1, path, at, prop),
{
    if at + 1 >= path.len() {
        assert(ph1.children@ == put_child(ph0.children@, prop));
        assert(put_child(ph0.children@, prop) =~= seq![prop]);
        assert(is_placeholder_flat(ph1, path[at]));
        assert(ph1.children@.len() == 1);
        assert(ph1.children@[0] == prop);
        assert(is_fresh_branch(ph1.children@[0], path, at + 1, prop));
    } else {
        assert(find_child(ph0.children@, path[at + 1]@) == 0);
        assert(is_placeholder_flat(ph1, path[at]));
        assert(ph1.children@.len() == 1);
        assert(is_fresh_branch(ph1.children@[0], path, at + 1, prop));
    }
}

proof fn lemma_find_child_agrees(s: Seq<TreeProp>, id: Seq<char>, j: int)
    requires
        0 <= j <= s.len(),
        forall|k: int| 0 <= k < j ==> (#[trigger] s[k]).id@ != id,
        j < s.len() ==> s[j].id@ == id,
    ensures
        find_child(s, id) == j,
    decreases s.len(),
{
    if s.len() > 0 {
        if j == 0 {
        } else {
            assert(s[0].id@ != id);
            assert(forall|k: int|
                0 <= k < j - 1 ==> (#[trigger] s.skip(1)[k]).id@ != id) by {
                assert(forall|k: int| 0 <= k < j - 1 ==> s.skip(1)[k] == s[k + 1]);
            }
            lemma_find_child_agrees(s.skip(1), id, j - 1);
        }
    }
}

/// The relative path a record encodes: its ancestor ids with the leading
/// creature entry set aside.
pub open spec fn rel_path_of(p: FlatProp) -> Seq<String> {
    p.ancestors@.skip(1).map_values(|a: Identifier| a.id)
}

/// How a forest changes when one record is placed into it: a record with an
/// empty relative path enters the roots keyed by its own id; any other
/// descends from the root of its path's first id — grown as a placeholder
/// when missing — and is inserted at the path's end.
pub open spec fn forest_step(f0: Seq<TreeProp>, f1: Seq<TreeProp>, p: FlatProp) -> bool {
    let rel = rel_path_of(p);
    exists|leaf: TreeProp|
        {
            &&& #[trigger] tree_to_flat(leaf) == p
            &&& leaf.children@ == Seq::<TreeProp>::empty()
            &&& if rel.len() == 0 {
                f1 == put_child(f0, leaf)
            } else {
                let j = find_child(f0, rel[0]@);
                if j < f0.len() {
                    &&& f1.len() == f0.len()
                    &&& f1 == f0.update(j, f1[j])
                    &&& is_insert_result(f0[j], f1[j], rel, 1, leaf)
                } else {
                    &&& f1.len() == f0.len() + 1
                    &&& f1.subrange(0, f0.len() as int) == f0
                    &&& is_fresh_branch(f1[f0.len() as int], rel, 0, leaf)
                }
            }
        }
}

/// Whether `f1` is the forest that placing the records of `ps` in turn into
/// `f0` produces.
pub open spec fn build_rel(ps: Seq<FlatProp>, f0: Seq<TreeProp>, f1: Seq<TreeProp>) -> bool
    decreases ps.len(),
{
    if ps.len() == 0 {
        f1 == f0
    } else {
        exists|mid: Seq<TreeProp>|
            #[trigger] forest_step(f0, mid, ps[0]) && build_rel(ps.skip(1), mid, f1)
    }
}

/// Placing one more record after a build keeps the build relation.
proof fn lemma_build_rel_snoc(
    ps: Seq<FlatProp>,
    f0: Seq<TreeProp>,
    f1: Seq<TreeProp>,
    f2: Seq<TreeProp>,
    p: FlatProp,
)
    requires
        build_rel(ps, f0, f1),
        forest_step(f1, f2, p),
    ensures
        build_rel(ps.push(p), f0, f2),
    decreases ps.len(),
{
    assert(ps.push(p)[0] == if ps.len() == 0 {
        p
    } else {
        ps[0]
    });
    if ps.len() == 0 {
        assert(ps.push(p).skip(1) =~= Seq::<FlatProp>::empty());
        assert(forest_step(f0, f2, p) && build_rel(ps.push(p).skip(1), f2, f2));
    } else {
        let mid = choose|mid: Seq<TreeProp>|
            #[trigger] forest_step(f0, mid, ps[0]) && build_rel(ps.skip(1), mid, f1);
        lemma_build_rel_snoc(ps.skip(1), mid, f1, f2, p);
        assert(ps.push(p).skip(1) =~= ps.skip(1).push(p));
        assert(forest_step(f0, mid, ps.push(p)[0]) && build_rel(ps.push(p).skip(1), mid, f2));
    }
}

/// Appending a tree to a forest appends its serialization.
proof fn lemma_preorder_push(s: Seq<TreeProp>, t: TreeProp, i: int)
    requires
        0 <= i <= s.len(),
    ensures
        preorder_from(s.push(t), i) == preorder_from(s, i) + preorder(t),
    decreases s.len() - i,
{
    if i == s.len() {
        assert(s.push(t)[i] == t);
        assert(preorder_from(s.push(t), i + 1) == Seq::<FlatProp>::empty());
        assert(preorder_from(s.push(t), i) =~= (seq![tree_to_flat(t)] + preorder_from(
            t.children@,
            0,
        )) + Seq::<FlatProp>::empty());
        assert(preorder_from(s, i) + preorder(t) =~= preorder(t));
    } else {
        lemma_preorder_push(s, t, i + 1);
        assert(s.push(t)[i] == s[i]);
        assert(preorder_from(s.push(t), i) == seq![tree_to_flat(s[i])] + preorder_from(
            s[i].children@,
            0,
        ) + preorder_from(s.push(t), i + 1));
        assert(seq![tree_to_flat(s[i])] + preorder_from(s[i].children@, 0) + (preorder_from(
            s,
            i + 1,
        ) + preorder(t)) =~= (seq![tree_to_flat(s[i])] + preorder_from(s[i].children@, 0)
            + preorder_from(s, i + 1)) + preorder(t));
    }
}

/// Whether every record of `ps` stands at the root level: its ancestor
/// chain holds only the creature entry.
pub open spec fn all_roots(ps: Seq<FlatProp>) -> bool {
    forall|i: int| 0 <= i < ps.len() ==> rel_path_of(#[trigger] ps[i]).len() == 0
}

/// Whether no two records of `ps` share an id, and none shares an id with a
/// root of `f0`.
pub open spec fn ids_fresh(ps: Seq<FlatProp>, f0: Seq<TreeProp>) -> bool {
    &&& forall|i: int, j: int| 0 <= i < j < ps.len() ==> (#[trigger] ps[i]).id@ != (
    #[trigger] ps[j]).id@
    &&& forall|i: int, j: int|
        0 <= i < ps.len() && 0 <= j < f0.len() ==> (#[trigger] ps[i]).id@ != (
        #[trigger] f0[j]).id@
}

proof fn lemma_round_trip_roots_from(ps: Seq<FlatProp>, f0: Seq<TreeProp>, f1: Seq<TreeProp>)
    requires
        build_rel(ps, f0, f1),
        all_roots(ps),
        ids_fresh(ps, f0),
    ensures
        preorder_forest(f1) == preorder_forest(f0) + ps,
    decreases ps.len(),
{
    if ps.len() == 0 {
        assert(f1 == f0);
        assert(preorder_forest(f0) + ps =~= preorder_forest(f0));
    } else {
        let p = ps[0];
        let mid = choose|mid: Seq<TreeProp>|
            #[trigger] forest_step(f0, mid, ps[0]) && build_rel(ps.skip(1), mid, f1);
        let leaf = choose|leaf: TreeProp|
            {
                &&& #[trigger] tree_to_flat(leaf) == p
                &&& leaf.children@ == Seq::<TreeProp>::empty()
                &&& mid == put_child(f0, leaf)
            };
        lemma_find_child_range(f0, leaf.id@);
        assert(find_child(f0, leaf.id@) == f0.len()) by {
            if find_child(f0, leaf.id@) < f0.len() {
                assert(f0[find_child(f0, leaf.id@)].id@ == p.id@);
            }
        }
        assert(mid == f0.push(leaf));
        lemma_preorder_push(f0, leaf, 0);
        assert(preorder(leaf) =~= seq![p]);
        assert(all_roots(ps.skip(1))) by {
            assert(forall|i: int| 0 <= i < ps.skip(1).len() ==> ps.skip(1)[i] == ps[i + 1]);
        }
        assert(ids_fresh(ps.skip(1), mid)) by {
            assert(forall|i: int| 0 <= i < ps.skip(1).len() ==> ps.skip(1)[i] == ps[i + 1]);
            assert(forall|j: int| 0 <= j < f0.len() ==> mid[j] == f0[j]);
            assert(mid[f0.len() as int] == leaf);
        }
        lemma_round_trip_roots_from(ps.skip(1), mid, f1);
        assert((preorder_forest(f0) + seq![p]) + ps.skip(1) =~= preorder_forest(f0) + ps);
    }
}

/// Round trip at the root level: rebuilding a forest from records whose
/// chains hold only the creature entry, and serializing it again, yields
/// exactly those records — none lost, none duplicated, their order kept.
pub proof fn lemma_round_trip_roots(ps: Seq<FlatProp>, f1: Seq<TreeProp>)
    requires
        build_rel(ps, Seq::<TreeProp>::empty(), f1),
        all_roots(ps),
        forall|i: int, j: int|
            0 <= i < j < ps.len() ==> (#[trigger] ps[i]).id@ != (#[trigger] ps[j]).id@,
    ensures
        preorder_forest(f1) == ps,
{
    lemma_round_trip_roots_from(ps, Seq::<TreeProp>::empty(), f1);
    assert(preorder_forest(Seq::<TreeProp>::empty()) + ps =~= ps);
}

/// Whether some record of `s` carries the id.
pub open spec fn has_record_id(s: Seq<FlatProp>, id: Seq<char>) -> bool {
    exists|i: int| 0 <= i < s.len() && (#[trigger] s[i]).id@ == id
}

/// Id coverage at the root level: the ids reachable in the built forest are
/// exactly the input ids.
pub proof fn lemma_forest_id_coverage_roots(ps: Seq<FlatProp>, f1: Seq<TreeProp>)
    requires
        build_rel(ps, Seq::<TreeProp>::empty(), f1),
        all_roots(ps),
        forall|i: int, j: int|
            0 <= i < j < ps.len() ==> (#[trigger] ps[i]).id@ != (#[trigger] ps[j]).id@,
    ensures
        forall|id: Seq<char>|
            #![trigger has_record_id(preorder_forest(f1), id)]
            #![trigger has_record_id(ps, id)]
            has_record_id(preorder_forest(f1), id) <==> has_record_id(ps, id),
{
    lemma_round_trip_roots(ps, f1);
}

/// A full character whose properties are in tree form, the roots keyed by
/// their own ids.
#[derive(PartialEq, Debug)]
pub struct TreeCharacter {
    pub creatures: Vec<CreatureInfo>,
    pub creature_properties_tmap: Vec<TreeProp>,
    pub creature_variables: Vec<HashMap<String, CharacterVar>>,
}

impl TreeCharacter {
    /// Build the tree form of a character from its flat form.
    ///
    /// The records are first sorted by `order`, stably; each is then placed
    /// into the forest along its ancestor-id chain (the leading creature
    /// entry set aside). A record whose ancestor chain is empty is a
    /// structural fault: the first one, in sorted order, aborts the build
    /// with a message naming the record.
    pub fn build_tree(ch: FlatCharacter) -> (r: Result<TreeCharacter, String>)
        ensures
            match r {
                Ok(tc) => {
                    &&& tc.creatures == ch.creatures
                    &&& tc.creature_variables == ch.creature_variables
                    &&& forall|i: int|
                        0 <= i < sort_by_order(ch.creature_properties@).len() ==> (#[trigger] sort_by_order(
                            ch.creature_properties@,
                        )[i]).ancestors@.len() > 0
                    &&& build_rel(
                        sort_by_order(ch.creature_properties@),
                        Seq::<TreeProp>::empty(),
                        tc.creature_properties_tmap@,
                    )
                },
                Err(e) => exists|i: int|
                    {
                        &&& 0 <= i < sort_by_order(ch.creature_properties@).len()
                        &&& (#[trigger] sort_by_order(ch.creature_properties@)[i]).ancestors@.len()
                            == 0
                        &&& forall|k: int|
                            0 <= k < i ==> (#[trigger] sort_by_order(
                                ch.creature_properties@,
                            )[k]).ancestors@.len() > 0
                        &&& e@ == crate::dnd_model::missing_text(
                            "ancestors"@,
                            prop_display_name(
                                sort_by_order(ch.creature_properties@)[i].prop_type,
                            ),
                        )
                    },
            },
    {
        let creatures = ch.creatures;
        let creature_variables = ch.creature_variables;
        let mut rest = crate::flat_model::sort_props(ch.creature_properties);
        let ghost s0 = rest@;
        let mut roots: Vec<TreeProp> = Vec::new();
        proof {
            assert(s0.subrange(0, s0.len() as int) =~= s0);
            assert(s0.take(0) =~= Seq::<FlatProp>::empty());
        }
        let ghost done: int = 0;
        while rest.len() > 0
            invariant
                0 <= done <= s0.len(),
                rest@ == s0.subrange(done, s0.len() as int),
                s0 == sort_by_order(ch.creature_properties@),
                build_rel(s0.take(done), Seq::<TreeProp>::empty(), roots@),
                forall|k: int| 0 <= k < done ==> (#[trigger] s0[k]).ancestors@.len() > 0,
            decreases rest@.len(),
        {
            let p = rest.remove(0);
            let ghost pval = p;
            proof {
                assert(pval == s0[done]);
            }
            if p.ancestors.len() == 0 {
                let name = p.prop_type.display_name();
                return Err(crate::dnd_model::missing("ancestors", name.as_str()));
            }
            let mut relv: Vec<String> = Vec::new();
            let mut k: usize = 1;
            while k < p.ancestors.len()
                invariant
                    1 <= k <= p.ancestors@.len(),
                    p == pval,
                    relv@.len() == k - 1,
                    forall|m: int| 0 <= m < k - 1 ==> relv@[m] == (#[trigger] p.ancestors@[m + 1]).id,
                decreases p.ancestors@.len() - k,
            {
                relv.push(p.ancestors[k].id.clone());
                k = k + 1;
            }
            proof {
                assert(relv@ =~= rel_path_of(pval));
            }
            let ghost f0 = roots@;
            let leaf = TreeProp::from_flat_prop(p);
            let ghost leafval = leaf;
            if relv.len() == 0 {
                put_child_vec(&mut roots, leaf);
                proof {
                    assert(forest_step(f0, roots@, pval));
                }
            } else {
                let key = &relv[0];
                let j: usize = find_child_index(&roots, key.as_str());
                if j < roots.len() {
                    let mut root = roots.remove(j);
                    root.recurse_insert(&relv, 1, leaf);
                    let ghost root1 = root;
                    roots.insert(j, root);
                    proof {
                        assert(roots@ =~= f0.update(j as int, root1));
                        assert(forest_step(f0, roots@, pval));
                    }
                } else {
                    let mut ph = placeholder(key.clone());
                    let ghost ph0 = ph;
                    ph.recurse_insert(&relv, 1, leaf);
                    proof {
                        lemma_fresh_after_insert(ph0, ph, relv@, 0, leafval);
                    }
                    roots.push(ph);
                    proof {
                        assert(roots@.subrange(0, f0.len() as int) =~= f0);
                        assert(forest_step(f0, roots@, pval));
                    }
                }
            }
            proof {
                lemma_build_rel_snoc(s0.take(done), Seq::<TreeProp>::empty(), f0, roots@, pval);
                assert(s0.take(done).push(pval) =~= s0.take(done + 1));
                assert(rest@ =~= s0.subrange(done + 1, s0.len() as int));
            }
            proof {
                done = done + 1;
            }
        }
        proof {
            assert(s0.take(done) =~= s0);
        }
        Ok(TreeCharacter { creatures, creature_properties_tmap: roots, creature_variables })
    }

    /// Borrow the roots of the forest.
    pub fn roots(&self) -> (r: &Vec<TreeProp>)
        ensures
            r@ == self.creature_properties_tmap@,
    {
        &self.creature_properties_tmap
    }

    /// Take the roots out of the tree, leaving the forest empty.
    pub fn take_roots(&mut self) -> (r: Vec<TreeProp>)
        ensures
            r@ == old(self).creature_properties_tmap@,
            final(self).creatures == old(self).creatures,
            final(self).creature_variables == old(self).creature_variables,
            final(self).creature_properties_tmap@ == Seq::<TreeProp>::empty(),
    {
        let mut out: Vec<TreeProp> = Vec::new();
        core::mem::swap(&mut self.creature_properties_tmap, &mut out);
        out
    }

    /// Add a root to the forest, keyed by its own id: an existing root with
    /// the same id is replaced in place, otherwise the root is appended.
    pub fn add_root(&mut self, prop: TreeProp)
        ensures
            final(self).creatures == old(self).creatures,
            final(self).creature_variables == old(self).creature_variables,
            final(self).creature_properties_tmap@ == put_child(
                old(self).creature_properties_tmap@,
                prop,
            ),
    {
        put_child_vec(&mut self.creature_properties_tmap, prop);
    }
}

/// Enter `c` into the sibling vector under its id, replacing the first entry
/// of the same id or appending.
fn put_child_vec(v: &mut Vec<TreeProp>, c: TreeProp)
    ensures
        final(v)@ == put_child(old(v)@, c),
{
    proof {
        lemma_find_child_range(v@, c.id@);
    }
    let n: usize = v.len();
    let mut j: usize = 0;
    while j < n
        invariant
            n == v@.len(),
            *v == *old(v),
            j <= n,
            forall|k: int| 0 <= k < j ==> (#[trigger] v@[k]).id@ != c.id@,
        decreases n - j,
    {
        if string_eq_str(&v[j].id, c.id.as_str()) {
            proof {
                lemma_find_child_agrees(v@, c.id@, j as int);
            }
            v[j] = c;
            return;
        }
        j = j + 1;
    }
    proof {
        lemma_find_child_agrees(v@, c.id@, n as int);
    }
    v.push(c);
}

} // verus!
