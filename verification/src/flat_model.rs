//! The flat form of a character: the property list as the API returns it.

use vstd::prelude::*;

verus! {

use std::collections::HashMap;
use crate::generic_model::{CharacterVar, CreatureInfo, Icon, Identifier, PropType};

/// All the details of one property record in its flat wire form.
#[derive(PartialEq, Debug)]
pub struct FlatProp {
    pub id: String,
    pub prop_type: PropType,
    pub tags: Vec<String>,
    pub order: usize,
    pub parent: Identifier,
    pub ancestors: Vec<Identifier>,
    pub library_node_id: Option<String>,
    pub color: Option<String>,
    pub icon: Option<Icon>,
    pub library_tags: Vec<String>,
    pub deactivated_by_toggle: Option<bool>,
    pub deactivated_by_ancestor: Option<bool>,
    pub inactive: bool,
    pub removed: bool,
    pub removed_at: Option<String>,
    pub removed_with: Option<String>,
    pub dirty: Option<bool>,
    pub migration_error: Vec<String>,
}

/// A sorted record list with `x` inserted after every record whose order is
/// at most `x`'s: the insertion a stable sort makes.
pub open spec fn insert_by_order(sorted: Seq<FlatProp>, x: FlatProp) -> Seq<FlatProp>
    decreases sorted.len(),
{
    if sorted.len() == 0 {
        seq![x]
    } else if sorted.last().order <= x.order {
        sorted.push(x)
    } else {
        insert_by_order(sorted.drop_last(), x).push(sorted.last())
    }
}

/// The record list sorted by `order` ascending, stably: records sharing an
/// order value keep their relative positions.
pub open spec fn sort_by_order(s: Seq<FlatProp>) -> Seq<FlatProp>
    decreases s.len(),
{
    if s.len() == 0 {
        s
    } else {
        insert_by_order(sort_by_order(s.drop_last()), s.last())
    }
}

proof fn lemma_insert_by_order_at(sorted: Seq<FlatProp>, x: FlatProp, p: int)
    requires
        0 <= p <= sorted.len(),
        forall|k: int| p <= k < sorted.len() ==> (#[trigger] sorted[k]).order > x.order,
        p > 0 ==> sorted[p - 1].order <= x.order,
    ensures
        insert_by_order(sorted, x) == sorted.insert(p, x),
    decreases sorted.len(),
{
    if sorted.len() == 0 {
        assert(insert_by_order(sorted, x) =~= sorted.insert(0, x));
    } else if p == sorted.len() {
        assert(sorted.push(x) =~= sorted.insert(p, x));
    } else {
        assert(sorted.last().order > x.order);
        assert(forall|k: int|
            p <= k < sorted.drop_last().len() ==> (#[trigger] sorted.drop_last()[k]).order
                > x.order);
        lemma_insert_by_order_at(sorted.drop_last(), x, p);
        assert(sorted.drop_last().insert(p, x).push(sorted.last()) =~= sorted.insert(p, x));
    }
}

/// Sort a record list by `order` ascending, stably.
pub fn sort_props(v: Vec<FlatProp>) -> (r: Vec<FlatProp>)
    ensures
        r@ == sort_by_order(v@),
{
    let ghost v0 = v@;
    let mut rest = v;
    let mut out: Vec<FlatProp> = Vec::new();
    proof {
        assert(v0.subrange(0, v0.len() as int) =~= v0);
        assert(v0.take(0) =~= Seq::<FlatProp>::empty());
    }
    let ghost done: int = 0;
    while rest.len() > 0
        invariant
            0 <= done <= v0.len(),
            rest@ == v0.subrange(done, v0.len() as int),
            out@ == sort_by_order(v0.take(done)),
        decreases rest@.len(),
    {
        let x = rest.remove(0);
        proof {
            assert(x == v0[done]);
        }
        let ghost sorted = out@;
        let mut p: usize = out.len();
        while p > 0 && out[p - 1].order > x.order
            invariant
                p <= out@.len(),
                out@ == sorted,
                forall|k: int| p <= k < sorted.len() ==> (#[trigger] sorted[k]).order > x.order,
            decreases p,
        {
            p = p - 1;
        }
        out.insert(p, x);
        proof {
            lemma_insert_by_order_at(sorted, x, p as int);
            assert(v0.take(done + 1).drop_last() =~= v0.take(done));
            assert(v0.take(done + 1).last() == x);
            assert(rest@ =~= v0.subrange(done + 1, v0.len() as int));
        }
        proof {
            done = done + 1;
        }
    }
    proof {
        assert(v0.take(done) =~= v0);
    }
    out
}

/// An entire character in its flat form, as returned by the API.
#[derive(PartialEq, Debug)]
pub struct FlatCharacter {
    pub creatures: Vec<CreatureInfo>,
    pub creature_properties: Vec<FlatProp>,
    pub creature_variables: Vec<HashMap<String, CharacterVar>>,
}

impl FlatCharacter {
    /// Convert a character in tree form back to its standard flat form.
    ///
    /// Every tree is serialized in turn, each node before its children, so
    /// the flat list is the concatenation of the trees' pre-order walks.
    pub fn from_tree_char(tree_char: crate::tree_model::TreeCharacter) -> (r: FlatCharacter)
        ensures
            r.creatures == tree_char.creatures,
            r.creature_variables == tree_char.creature_variables,
            r.creature_properties@ == crate::tree_model::preorder_forest(
                tree_char.creature_properties_tmap@,
            ),
    {
        let creatures = tree_char.creatures;
        let creature_variables = tree_char.creature_variables;
        let mut roots = tree_char.creature_properties_tmap;
        let ghost roots0 = roots@;
        let mut creature_properties: Vec<FlatProp> = Vec::new();
        proof {
            assert(roots0.subrange(0, roots0.len() as int) =~= roots0);
            assert(Seq::<FlatProp>::empty() + crate::tree_model::preorder_from(roots0, 0)
                =~= crate::tree_model::preorder_from(roots0, 0));
        }
        let ghost done: int = 0;
        while roots.len() > 0
            invariant
                0 <= done <= roots0.len(),
                roots@ == roots0.subrange(done, roots0.len() as int),
                creature_properties@ + crate::tree_model::preorder_from(roots0, done)
                    == crate::tree_model::preorder_from(roots0, 0),
            decreases roots@.len(),
        {
            let ghost pre = creature_properties@;
            let prop = roots.remove(0);
            proof {
                assert(prop == roots0[done]);
            }
            prop.flatten(&mut creature_properties);
            proof {
                assert(roots@ =~= roots0.subrange(done + 1, roots0.len() as int));
                crate::tree_model::lemma_preorder_step(roots0, done);
                assert((pre + crate::tree_model::preorder(roots0[done]))
                    + crate::tree_model::preorder_from(roots0, done + 1) =~= pre + (
                crate::tree_model::preorder(roots0[done]) + crate::tree_model::preorder_from(
                    roots0,
                    done + 1,
                )));
            }
            proof {
                done = done + 1;
            }
        }
        proof {
            assert(crate::tree_model::preorder_from(roots0, done) == Seq::<FlatProp>::empty());
            assert(creature_properties@ + Seq::<FlatProp>::empty() =~= creature_properties@);
        }
        FlatCharacter { creatures, creature_properties, creature_variables }
    }
}

} // verus!
