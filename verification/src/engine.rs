//! The engine's entry point: validate, measure, then position — and the
//! pre-order traversal a rendering collaborator consumes.

use vstd::prelude::*;

use crate::boxes::LayoutInfo;
use crate::measure::measure_map;
use crate::node::Layout;
use crate::node::Skel;
use crate::position::position_map;
use crate::size::LayoutError;
use crate::tree::LayoutTree;
use crate::tree::apply_dims;
use crate::tree::apply_poss;
use crate::tree::dims_of;
use crate::tree::lemma_skels_apply_dims;
use crate::tree::skels;
use crate::validate::spec_validate;

verus! {

broadcast use crate::tree::lemma_tree_view;

/// What one `calculate` call does to a tree: nothing on an empty tree; on a
/// tree with a structural fault, the fault and no change at all; otherwise
/// the measure pass writes every dimension and the position pass every
/// origin, from the root down at origin `(0, 0)`.
pub open spec fn spec_calculate(s: Seq<Layout>, w: u32, h: u32, u: u32) -> Result<
    Seq<Layout>,
    LayoutError,
> {
    if s.len() == 0 {
        Ok(s)
    } else {
        let root = s.len() - 1;
        match spec_validate(skels(s), root as int) {
            Err(e) => Err(e),
            Ok(unit) => {
                let s1 = apply_dims(s, measure_map(skels(s), root as int, w, h, u));
                let s2 = apply_poss(
                    s1,
                    position_map(skels(s), dims_of(s1), root as int, 0u32, 0u32, u),
                );
                Ok(s2)
            },
        }
    }
}

/// The nodes of the subtree rooted at `idx` in pre-order: the node itself,
/// then each child's subtree in declaration order.
pub open spec fn spec_preorder(t: Seq<Skel>, idx: int) -> Seq<int>
    decreases idx, 1int, 0int,
{
    if !(0 <= idx < t.len()) {
        Seq::empty()
    } else {
        seq![idx] + preorder_kids(t, idx, t[idx].children, t[idx].children.len() as int)
    }
}

/// The concatenated pre-orders of the first `i` children.
pub open spec fn preorder_kids(t: Seq<Skel>, idx: int, kids: Seq<int>, i: int) -> Seq<int>
    decreases idx, 0int, i,
{
    if i <= 0 || i > kids.len() {
        Seq::empty()
    } else {
        preorder_kids(t, idx, kids, i - 1) + if 0 <= kids[i - 1] < idx {
            spec_preorder(t, kids[i - 1])
        } else {
            Seq::empty()
        }
    }
}

impl LayoutTree {
    /// Lay the whole tree out against an available `(width, height)` extent
    /// at base unit `unit_size`: validate the structure, and if it is
    /// sound, measure every node and position every node from the origin.
    /// On a structural fault the error is returned and no computed box is
    /// touched.
    pub fn calculate(&mut self, width: u32, height: u32, unit_size: u32) -> (r: Result<
        (),
        LayoutError,
    >)
        requires
            old(self).wf(),
        ensures
            final(self).wf(),
            skels(final(self)@) == skels(old(self)@),
            match spec_calculate(old(self)@, width, height, unit_size) {
                Ok(s2) => r is Ok && final(self)@ == s2,
                Err(e) => r == Err::<(), LayoutError>(e) && final(self)@ == old(self)@,
            },
    {
        let ghost s0 = self@;
        let n = self.len();
        if n == 0 {
            return Ok(());
        }
        let root = n - 1;
        match self.validate(root) {
            Err(e) => Err(e),
            Ok(unit) => {
                let info = LayoutInfo { width, height, x: 0, y: 0, unit_size };
                self.measure(root, info);
                proof {
                    lemma_skels_apply_dims(
                        s0,
                        measure_map(skels(s0), root as int, width, height, unit_size),
                    );
                }
                self.position(root, info);
                Ok(())
            },
        }
    }

    /// The arena indices of the whole tree in pre-order, root first: the
    /// restartable traversal a rendering collaborator walks to draw each
    /// node's computed boxes.
    pub fn preorder(&self) -> (r: Vec<usize>)
        requires
            self.wf(),
        ensures
            self@.len() == 0 ==> r@.len() == 0,
            self@.len() > 0 ==> r@.map_values(|v: usize| v as int) == spec_preorder(
                skels(self@),
                self@.len() - 1,
            ),
            forall|j: int| 0 <= j < r@.len() ==> (#[trigger] r@[j] as int) < self@.len(),
    {
        let mut out: Vec<usize> = Vec::new();
        let n = self.len();
        if n > 0 {
            self.preorder_into(n - 1, &mut out);
            proof {
                assert(out@.map_values(|v: usize| v as int) =~= Seq::<int>::empty()
                    + spec_preorder(skels(self@), self@.len() - 1));
            }
        }
        out
    }

    /// Append the pre-order of the subtree rooted at `idx`.
    fn preorder_into(&self, idx: usize, out: &mut Vec<usize>)
        requires
            self.wf(),
            idx < self@.len(),
            forall|j: int| 0 <= j < old(out)@.len() ==> (#[trigger] old(out)@[j] as int) < self@.len(),
        ensures
            final(out)@.map_values(|v: usize| v as int) == old(out)@.map_values(|v: usize| v as int)
                + spec_preorder(skels(self@), idx as int),
            forall|j: int| 0 <= j < final(out)@.len() ==> (#[trigger] final(out)@[j] as int) < self@.len(),
        decreases idx,
    {
        let ghost t = skels(self@);
        let ghost base = out@.map_values(|v: usize| v as int);
        proof {
            assert(t[idx as int] == crate::node::skel_of(self@[idx as int]));
        }
        out.push(idx);
        let ghost kids = t[idx as int].children;
        let klen = self.nodes[idx].children.len();
        let mut i: usize = 0;
        while i < klen
            invariant
                self.wf(),
                idx < self@.len(),
                t == skels(self@),
                t[idx as int] == crate::node::skel_of(self@[idx as int]),
                kids == t[idx as int].children,
                klen == kids.len(),
                i <= klen,
                out@.map_values(|v: usize| v as int) == base + seq![idx as int] + preorder_kids(
                    t,
                    idx as int,
                    kids,
                    i as int,
                ),
                forall|j: int| 0 <= j < out@.len() ==> (#[trigger] out@[j] as int) < self@.len(),
            decreases klen - i,
        {
            let kid = self.nodes[idx].children[i];
            proof {
                assert(kids[i as int] == kid as int);
                assert(0 <= (kid as int) < idx as int);
            }
            let ghost before = out@.map_values(|v: usize| v as int);
            self.preorder_into(kid, out);
            proof {
                assert(out@.map_values(|v: usize| v as int) =~= base + seq![idx as int]
                    + preorder_kids(t, idx as int, kids, i + 1));
            }
            i += 1;
        }
        proof {
            assert(out@.map_values(|v: usize| v as int) =~= base + (seq![idx as int]
                + preorder_kids(t, idx as int, kids, klen as int)));
            assert(spec_preorder(t, idx as int) == seq![idx as int] + preorder_kids(
                t,
                idx as int,
                kids,
                klen as int,
            ));
        }
    }
}

} // verus!
