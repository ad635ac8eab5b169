//! Structural validation: the pass that discovers `DoubleSameSized` and
//! `MultipleMaxChildren` before any box is computed. Both errors depend on
//! the tree's structure alone, so a tree that validates is measured and
//! positioned without touching an error path, and a tree that does not is
//! left entirely unchanged by `calculate`.

use vstd::prelude::*;

use crate::node::Skel;
use crate::node::eff_main;
use crate::size::Axis;
use crate::size::LayoutError;
use crate::size::Size;
use crate::tree::LayoutTree;
use crate::tree::skels;

verus! {

broadcast use crate::tree::lemma_tree_view;

/// Whether the node at `kid` requests `Max` sizing on the given axis.
pub open spec fn is_max_kid(t: Seq<Skel>, kid: int, axis: Axis) -> bool {
    0 <= kid < t.len() && eff_main(t[kid], axis) is Max
}

/// How many of the first `i` children request `Max` sizing on the axis.
pub open spec fn count_max_prefix(t: Seq<Skel>, kids: Seq<int>, i: int, axis: Axis) -> int
    decreases i,
{
    if i <= 0 || i > kids.len() {
        0
    } else {
        count_max_prefix(t, kids, i - 1, axis) + if is_max_kid(t, kids[i - 1], axis) {
            1int
        } else {
            0int
        }
    }
}

/// Structural validation of the subtree rooted at `idx`: a node with `Same`
/// sizing on both axes fails with `DoubleSameSized`; a node whose axis has
/// more than one `Max`-sized child fails with `MultipleMaxChildren`; the
/// node's own faults are reported before its children's, and children are
/// checked in declaration order.
pub open spec fn spec_validate(t: Seq<Skel>, idx: int) -> Result<(), LayoutError>
    decreases idx, 1int, 0int,
{
    if !(0 <= idx < t.len()) {
        Ok(())
    } else {
        let k = t[idx];
        if k.hsize is Same && k.vsize is Same {
            Err(LayoutError::DoubleSameSized)
        } else if count_max_prefix(t, k.children, k.children.len() as int, k.axis) >= 2 {
            Err(LayoutError::MultipleMaxChildren)
        } else {
            validate_kids(t, idx, k.children, 0)
        }
    }
}

/// Validation of the children from position `i` on, in declaration order:
/// the first failing subtree decides the error.
pub open spec fn validate_kids(t: Seq<Skel>, idx: int, kids: Seq<int>, i: int) -> Result<
    (),
    LayoutError,
>
    decreases idx, 0int, kids.len() - i,
{
    if i < 0 || i >= kids.len() {
        Ok(())
    } else if !(0 <= kids[i] < idx) {
        validate_kids(t, idx, kids, i + 1)
    } else {
        match spec_validate(t, kids[i]) {
            Err(e) => Err(e),
            Ok(unit) => validate_kids(t, idx, kids, i + 1),
        }
    }
}

/// A subtree that validates has no fault at its root: the root is not
/// `Same`-sized on both axes, its axis has at most one `Max`-sized child,
/// and every child subtree validates in turn.
pub proof fn lemma_validate_ok_unfold(t: Seq<Skel>, idx: int)
    requires
        0 <= idx < t.len(),
        spec_validate(t, idx) is Ok,
    ensures
        !(t[idx].hsize is Same && t[idx].vsize is Same),
        count_max_prefix(t, t[idx].children, t[idx].children.len() as int, t[idx].axis) < 2,
        forall|j: int|
            0 <= j < t[idx].children.len() && 0 <= #[trigger] t[idx].children[j] < idx
                ==> spec_validate(t, t[idx].children[j]) is Ok,
{
    lemma_validate_kids_ok(t, idx, t[idx].children, 0);
}

/// If the children from position `i` on validate, each of them does.
proof fn lemma_validate_kids_ok(t: Seq<Skel>, idx: int, kids: Seq<int>, i: int)
    requires
        0 <= i,
        validate_kids(t, idx, kids, i) is Ok,
    ensures
        forall|j: int|
            i <= j < kids.len() && 0 <= #[trigger] kids[j] < idx ==> spec_validate(t, kids[j]) is Ok,
    decreases kids.len() - i,
{
    if 0 <= i < kids.len() {
        lemma_validate_kids_ok(t, idx, kids, i + 1);
    }
}

impl LayoutTree {
    /// Check the subtree rooted at `idx` for structural faults: `Same`
    /// sizing on both axes of one node, or more than one `Max`-sized child
    /// on a node's axis. Nothing is computed and nothing is changed.
    pub fn validate(&self, idx: usize) -> (r: Result<(), LayoutError>)
        requires
            self.wf(),
            idx < self@.len(),
        ensures
            r == spec_validate(skels(self@), idx as int),
        decreases idx,
    {
        let ghost t = skels(self@);
        proof {
            assert(t[idx as int] == crate::node::skel_of(self@[idx as int]));
        }
        if self.nodes[idx].hsize == Size::Same && self.nodes[idx].vsize == Size::Same {
            return Err(LayoutError::DoubleSameSized);
        }
        let axis = self.nodes[idx].axis;
        let klen = self.nodes[idx].children.len();
        proof {
            assert(t[idx as int].children.len() == klen);
        }
        let mut count: u64 = 0;
        let mut i: usize = 0;
        while i < klen
            invariant
                self.wf(),
                idx < self@.len(),
                t == skels(self@),
                t[idx as int] == crate::node::skel_of(self@[idx as int]),
                axis == t[idx as int].axis,
                klen == t[idx as int].children.len(),
                i <= klen,
                count <= i,
                count == count_max_prefix(t, t[idx as int].children, i as int, axis),
            decreases klen - i,
        {
            let kid = self.nodes[idx].children[i];
            proof {
                assert(t[idx as int].children[i as int] == kid as int);
                assert(0 <= kid < idx);
                assert(t[kid as int] == crate::node::skel_of(self@[kid as int]));
            }
            let em = match axis {
                Axis::Horizontal => self.nodes[kid].horizontal(),
                Axis::Vertical => self.nodes[kid].vertical(),
            };
            if em == Size::Max {
                count += 1;
            }
            i += 1;
        }
        if count >= 2 {
            return Err(LayoutError::MultipleMaxChildren);
        }
        let ghost kids = t[idx as int].children;
        let mut j: usize = 0;
        while j < klen
            invariant
                self.wf(),
                idx < self@.len(),
                t == skels(self@),
                t[idx as int] == crate::node::skel_of(self@[idx as int]),
                kids == t[idx as int].children,
                klen == kids.len(),
                j <= klen,
                !(t[idx as int].hsize is Same && t[idx as int].vsize is Same),
                count_max_prefix(t, kids, kids.len() as int, t[idx as int].axis) < 2,
                validate_kids(t, idx as int, kids, 0) == validate_kids(t, idx as int, kids, j as int),
            decreases klen - j,
        {
            let kid = self.nodes[idx].children[j];
            proof {
                assert(kids[j as int] == kid as int);
                assert(0 <= kid < idx);
            }
            match self.validate(kid) {
                Err(e) => {
                    proof {
                        assert(validate_kids(t, idx as int, kids, j as int) == Err::<
                            (),
                            LayoutError,
                        >(e));
                        assert(spec_validate(t, idx as int) == validate_kids(
                            t,
                            idx as int,
                            kids,
                            0,
                        ));
                    }
                    return Err(e);
                },
                Ok(unit) => {
                    proof {
                        assert(validate_kids(t, idx as int, kids, j as int) == validate_kids(
                            t,
                            idx as int,
                            kids,
                            j + 1,
                        ));
                    }
                },
            }
            j += 1;
        }
        proof {
            assert(validate_kids(t, idx as int, kids, klen as int) == Ok::<(), LayoutError>(()));
            assert(spec_validate(t, idx as int) == validate_kids(t, idx as int, kids, 0));
        }
        Ok(())
    }
}

} // verus!
