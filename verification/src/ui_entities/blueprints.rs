//! The blueprint collector: widgets declare what to draw bottom-up during
//! a tree walk; the collector flattens everything into one draw pass
//! ordered by layer, lower layers first.

use crate::layout::Rect;
use vstd::prelude::*;

verus! {

/// Which widget a draw obligation refers to. The widget set is fixed at
/// compile time, so a closed enum replaces a dynamic reference.
#[derive(Debug, Clone, Copy, PartialEq, Eq, Structural)]
pub enum EntityRef {
    Sidebar,
    Viewer,
    FpsHint,
    KeyPressHint,
    /// One entry of the sidebar's item list, by its index.
    ChatItem(usize),
}

/// One deferred draw obligation: draw `entity` into `area` at `layer`.
#[derive(Debug, Clone, Copy, PartialEq, Eq, Structural)]
pub struct Blueprint {
    pub entity: EntityRef,
    pub area: Rect,
    pub layer: isize,
}

/// Layer sequence is non-decreasing: lower layers draw first.
pub open spec fn layer_ordered(s: Seq<Blueprint>) -> bool {
    forall|i: int, j: int| 0 <= i < j < s.len() ==> s[i].layer <= s[j].layer
}

/// The collector of draw obligations for one frame.
pub struct UiBlueprints {
    blueprints: Vec<Blueprint>,
}

impl UiBlueprints {
    /// The obligations collected so far, in insertion order.
    pub closed spec fn entries(self) -> Seq<Blueprint> {
        self.blueprints@
    }

    pub fn new() -> (r: UiBlueprints)
        ensures
            r.entries() == Seq::<Blueprint>::empty(),
    {
        UiBlueprints { blueprints: Vec::new() }
    }

    /// Record one draw obligation.
    pub fn add_new_blueprint(&mut self, entity: EntityRef, area: Rect, layer: isize)
        ensures
            final(self).entries() == old(self).entries().push(
                Blueprint { entity, area, layer },
            ),
    {
        let bp = Blueprint { entity, area, layer };
        self.blueprints.push(bp);
    }

    /// Drain the collector into one draw pass: the same obligations,
    /// reordered so that layers are non-decreasing (ties keep no
    /// particular order). The collector is empty afterwards, ready for the
    /// next frame.
    pub fn flush(&mut self) -> (r: Vec<Blueprint>)
        ensures
            r@.to_multiset() == old(self).entries().to_multiset(),
            layer_ordered(r@),
            final(self).entries() == Seq::<Blueprint>::empty(),
    {
        broadcast use vstd::seq_lib::group_to_multiset_ensures;
        broadcast use vstd::multiset::group_multiset_axioms;

        let ghost orig = self.blueprints@;
        let mut out: Vec<Blueprint> = Vec::new();
        while self.blueprints.len() > 0
            invariant
                out@.to_multiset().add(self.blueprints@.to_multiset()) == orig.to_multiset(),
                layer_ordered(out@),
                forall|i: int, j: int|
                    0 <= i < out@.len() && 0 <= j < self.blueprints@.len() ==> out@[i].layer
                        <= self.blueprints@[j].layer,
            decreases self.blueprints@.len(),
        {
            let mut min_idx: usize = 0;
            let mut k: usize = 1;
            while k < self.blueprints.len()
                invariant
                    0 < self.blueprints@.len(),
                    min_idx < k,
                    k <= self.blueprints@.len(),
                    forall|t: int|
                        0 <= t < k ==> self.blueprints@[min_idx as int].layer
                            <= self.blueprints@[t].layer,
                decreases self.blueprints@.len() - k,
            {
                if self.blueprints[k].layer < self.blueprints[min_idx].layer {
                    min_idx = k;
                }
                k = k + 1;
            }
            let ghost before = self.blueprints@;
            let ghost prev_out = out@;
            let bp = self.blueprints.remove(min_idx);
            out.push(bp);
            proof {
                assert(before.contains(before[min_idx as int]));
                vstd::seq_lib::to_multiset_remove(before, min_idx as int);
                vstd::seq_lib::to_multiset_build(prev_out, bp);
                vstd::seq_lib::to_multiset_contains(before, bp);
                assert(self.blueprints@.to_multiset() =~= before.to_multiset().remove(bp));
                assert(out@.to_multiset() =~= prev_out.to_multiset().insert(bp));
                assert(out@.to_multiset().add(self.blueprints@.to_multiset()) =~= prev_out.to_multiset().add(before.to_multiset())) by {
                    broadcast use vstd::multiset::group_multiset_axioms;

                    assert(before.to_multiset().count(bp) > 0);
                }
                assert forall|j: int| 0 <= j < self.blueprints@.len() implies bp.layer
                    <= self.blueprints@[j].layer by {
                    if j < min_idx {
                        assert(self.blueprints@[j] == before[j]);
                    } else {
                        assert(self.blueprints@[j] == before[j + 1]);
                    }
                }
            }
        }
        proof {
            assert(out@.to_multiset() =~= orig.to_multiset()) by {
                assert(self.blueprints@ =~= Seq::<Blueprint>::empty());
                assert(self.blueprints@.to_multiset().len() == 0);
                assert(out@.to_multiset().add(self.blueprints@.to_multiset()) =~= out@.to_multiset());
            }
        }
        out
    }
}

impl Default for UiBlueprints {
    fn default() -> (r: UiBlueprints)
        ensures
            r.entries() == Seq::<Blueprint>::empty(),
    {
        UiBlueprints::new()
    }
}

} // verus!
