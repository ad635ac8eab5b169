//! The position pass: assign absolute origins top-down, after the measure
//! pass has resolved every dimension.
//!
//! The pass is specified by [`position_map`], a recursive function from the
//! tree's structure, the measured dimensions and an origin to the origins of
//! every node of the subtree. A node's outer origin is where its parent put
//! it; inner and content origins advance by the margin and padding. The
//! children are placed inside the frame spanned by the content origin and
//! the larger of the content and core extents: packed from the leading or
//! trailing edge, centered, or spread with even gaps along the main axis,
//! and placed edge-to-edge or centered across it.

use vstd::prelude::*;

use crate::boxes::ComputedLayout;
use crate::boxes::Dims;
use crate::boxes::LayoutInfo;
use crate::boxes::Poss;
use crate::node::Skel;
use crate::node::skel_of;
use crate::nums::max32;
use crate::nums::mul_wide;
use crate::nums::sat32;
use crate::nums::sat_add32;
use crate::nums::sat_add_wide;
use crate::nums::sat_sub32;
use crate::nums::spec_max32;
use crate::size::Alignment;
use crate::size::Axis;
use crate::size::cross_of;
use crate::size::main_of;
use crate::size::pair_mc;
use crate::tree::apply_poss;
use crate::tree::dims_of;
use crate::tree::lemma_apply_poss_compose;
use crate::tree::lemma_apply_poss_empty;
use crate::tree::lemma_apply_poss_insert;
use crate::tree::lemma_apply_poss_keeps;
use crate::tree::skels;
use crate::tree::with_poss;

verus! {

broadcast use crate::tree::lemma_tree_view;

/// The main-axis extent already taken by the first `i` children: their
/// outer extents, plus one gap ahead of each child when the alignment
/// spreads them evenly.
pub open spec fn running_prefix(
    d: Seq<Dims>,
    kids: Seq<int>,
    i: int,
    axis: Axis,
    amain: Alignment,
    gap: u32,
) -> u32
    decreases i,
{
    if i <= 0 || i > kids.len() {
        0u32
    } else {
        let prev = running_prefix(d, kids, i - 1, axis, amain, gap);
        let om = main_of(d[kids[i - 1]].outer, axis);
        match amain {
            Alignment::Even => sat32(prev + om + gap),
            _ => sat32(prev + om),
        }
    }
}

/// A child's main-axis origin inside the frame: `fx` is the frame's leading
/// edge, `fm` its extent, `space` the extent not taken by children, `gap`
/// the even-distribution gap, `rb` the running extent ahead of this child
/// and `om` the child's own outer extent.
pub open spec fn kid_main_pos(
    fx: u32,
    fm: u32,
    space: u32,
    gap: u32,
    amain: Alignment,
    rb: u32,
    om: u32,
) -> u32 {
    match amain {
        Alignment::Start => sat32(fx + rb),
        Alignment::End => sat32(sat32(fx + fm) - sat32(rb + om)),
        Alignment::Center => sat32(fx + space / 2 + rb),
        Alignment::Even => sat32(fx + rb + gap),
    }
}

/// A child's cross-axis origin inside the frame: `fy` is the frame's
/// leading edge, `fc` its extent, `oc` the child's outer extent and
/// `core_cross` the largest child extent, the reference band of the even
/// placement.
pub open spec fn kid_cross_pos(fy: u32, fc: u32, across: Alignment, oc: u32, core_cross: u32) -> u32 {
    match across {
        Alignment::Start => fy,
        Alignment::End => sat32(sat32(fy + fc) - oc),
        Alignment::Center => sat32(fy + sat32(fc - oc) / 2),
        Alignment::Even => sat32(fy + sat32(fc - core_cross) / 2),
    }
}

/// The union of the origin maps of the first `i` children, each child
/// placed by the alignment rules and recursively positioned.
pub open spec fn pos_union_prefix(
    t: Seq<Skel>,
    d: Seq<Dims>,
    idx: int,
    kids: Seq<int>,
    i: int,
    axis: Axis,
    amain: Alignment,
    across: Alignment,
    fx: u32,
    fy: u32,
    fm: u32,
    fc: u32,
    space: u32,
    gap: u32,
    core_cross: u32,
    u: u32,
) -> Map<int, Poss>
    decreases idx, 0int, i,
{
    if i <= 0 || i > kids.len() {
        Map::empty()
    } else {
        let m = pos_union_prefix(
            t,
            d,
            idx,
            kids,
            i - 1,
            axis,
            amain,
            across,
            fx,
            fy,
            fm,
            fc,
            space,
            gap,
            core_cross,
            u,
        );
        let kid = kids[i - 1];
        if !(0 <= kid < idx) {
            m
        } else {
            let rb = running_prefix(d, kids, i - 1, axis, amain, gap);
            let om = main_of(d[kid].outer, axis);
            let oc = cross_of(d[kid].outer, axis);
            let mainp = kid_main_pos(fx, fm, space, gap, amain, rb, om);
            let crossp = kid_cross_pos(fy, fc, across, oc, core_cross);
            let coords = pair_mc(mainp, crossp, axis);
            m.union_prefer_right(position_map(t, d, kid, coords.0, coords.1, u))
        }
    }
}

/// The origins the position pass assigns to every node of the subtree
/// rooted at `idx`, given the measured dimensions `d` and the subtree's
/// outer origin `(x, y)`.
pub open spec fn position_map(t: Seq<Skel>, d: Seq<Dims>, idx: int, x: u32, y: u32, u: u32) -> Map<
    int,
    Poss,
>
    decreases idx, 1int, 0int,
{
    if !(0 <= idx < t.len()) {
        Map::empty()
    } else {
        let k = t[idx];
        let po = (x, y);
        let pi = (sat32(x + k.margin.left * u), sat32(y + k.margin.top * u));
        let pc = (sat32(pi.0 + k.padding.left * u), sat32(pi.1 + k.padding.top * u));
        let own = Poss { outer: po, inner: pi, content: pc };
        if k.children.len() == 0 {
            Map::empty().insert(idx, own)
        } else {
            let dd = d[idx];
            let fw = spec_max32(dd.content.0, dd.core.0);
            let fh = spec_max32(dd.content.1, dd.core.1);
            let axis = k.axis;
            let fm = main_of((fw, fh), axis);
            let fc = cross_of((fw, fh), axis);
            let fx = main_of(pc, axis);
            let fy = cross_of(pc, axis);
            let core_main = main_of(dd.core, axis);
            let core_cross = cross_of(dd.core, axis);
            let space = sat32(fm - core_main);
            let n = k.children.len() as int;
            let gap = (space as int / (n + 1)) as u32;
            let amain = match axis {
                Axis::Horizontal => k.halign,
                Axis::Vertical => k.valign,
            };
            let across = match axis {
                Axis::Horizontal => k.valign,
                Axis::Vertical => k.halign,
            };
            let m = pos_union_prefix(
                t,
                d,
                idx,
                k.children,
                n,
                axis,
                amain,
                across,
                fx,
                fy,
                fm,
                fc,
                space,
                gap,
                core_cross,
                u,
            );
            m.insert(idx, own)
        }
    }
}

impl crate::tree::LayoutTree {
    /// Position the subtree rooted at `idx` with its outer origin at the
    /// frame's `(x, y)`: every node of the subtree gets the origins that
    /// [`position_map`] assigns; dimensions and structure are untouched.
    #[verifier::loop_isolation(false)]
    pub fn position(&mut self, idx: usize, info: LayoutInfo)
        requires
            old(self).wf(),
            idx < old(self)@.len(),
        ensures
            final(self).wf(),
            skels(final(self)@) == skels(old(self)@),
            dims_of(final(self)@) == dims_of(old(self)@),
            final(self)@ == apply_poss(
                old(self)@,
                position_map(
                    skels(old(self)@),
                    dims_of(old(self)@),
                    idx as int,
                    info.x,
                    info.y,
                    info.unit_size,
                ),
            ),
        decreases idx,
    {
        let ghost s0 = self@;
        let ghost t = skels(self@);
        let ghost d = dims_of(self@);
        let u = info.unit_size;
        proof {
            assert(t[idx as int] == skel_of(self@[idx as int]));
        }
        let x = info.x;
        let y = info.y;
        let ml = self.nodes[idx].margin.left;
        let mt = self.nodes[idx].margin.top;
        let pl = self.nodes[idx].padding.left;
        let pt = self.nodes[idx].padding.top;
        let pix = sat_add_wide(x, mul_wide(ml as u128, u as u128));
        let piy = sat_add_wide(y, mul_wide(mt as u128, u as u128));
        let pcx = sat_add_wide(pix, mul_wide(pl as u128, u as u128));
        let pcy = sat_add_wide(piy, mul_wide(pt as u128, u as u128));
        let ghost own = Poss { outer: (x, y), inner: (pix, piy), content: (pcx, pcy) };
        let klen = self.nodes[idx].children.len();
        if klen == 0 {
            let c0 = self.nodes[idx].computed;
            self.nodes[idx].computed = ComputedLayout {
                outer_pos: (x, y),
                inner_pos: (pix, piy),
                content_pos: (pcx, pcy),
                ..c0
            };
            proof {
                let pm = position_map(t, d, idx as int, x, y, u);
                assert(pm == Map::empty().insert(idx as int, own));
                lemma_apply_poss_insert(s0, Map::empty(), idx as int, own);
                lemma_apply_poss_empty(s0);
                assert(self@ =~= apply_poss(s0, pm));
                lemma_apply_poss_keeps(s0, pm);
            }
            return ;
        }
        let cdim = self.nodes[idx].computed.content_dim;
        let kore = self.nodes[idx].computed.core_dim;
        proof {
            assert(crate::boxes::dims_of_computed(self@[idx as int].computed) == d[idx as int]);
        }
        let fw = max32(cdim.0, kore.0);
        let fh = max32(cdim.1, kore.1);
        let axis = self.nodes[idx].axis;
        let fm = match axis {
            Axis::Horizontal => fw,
            Axis::Vertical => fh,
        };
        let fc = match axis {
            Axis::Horizontal => fh,
            Axis::Vertical => fw,
        };
        let fx = match axis {
            Axis::Horizontal => pcx,
            Axis::Vertical => pcy,
        };
        let fy = match axis {
            Axis::Horizontal => pcy,
            Axis::Vertical => pcx,
        };
        let core_main = match axis {
            Axis::Horizontal => kore.0,
            Axis::Vertical => kore.1,
        };
        let core_cross = match axis {
            Axis::Horizontal => kore.1,
            Axis::Vertical => kore.0,
        };
        let space = sat_sub32(fm, core_main);
        proof {
            assert(t[idx as int].children.len() <= u32::MAX);
        }
        let gap64: u64 = (space as u64) / ((klen as u64) + 1);
        let gap: u32 = gap64 as u32;
        let amain = match axis {
            Axis::Horizontal => self.nodes[idx].halign,
            Axis::Vertical => self.nodes[idx].valign,
        };
        let across = match axis {
            Axis::Horizontal => self.nodes[idx].valign,
            Axis::Vertical => self.nodes[idx].halign,
        };
        let ghost kids = t[idx as int].children;
        proof {
            assert(gap == (space as int / (kids.len() as int + 1)) as u32);
        }
        let mut running: u32 = 0;
        let mut i: usize = 0;
        while i < klen
            invariant
                self.wf(),
                self@.len() == s0.len(),
                t == skels(self@),
                d == dims_of(self@),
                i <= klen,
                running == running_prefix(d, kids, i as int, axis, amain, gap),
                self@ == apply_poss(
                    s0,
                    pos_union_prefix(
                        t,
                        d,
                        idx as int,
                        kids,
                        i as int,
                        axis,
                        amain,
                        across,
                        fx,
                        fy,
                        fm,
                        fc,
                        space,
                        gap,
                        core_cross,
                        u,
                    ),
                ),
            decreases klen - i,
        {
            let kid = self.nodes[idx].children[i];
            proof {
                assert(skel_of(self@[idx as int]).children[i as int] == kid as int);
                assert(kids[i as int] == kid as int);
                assert(0 <= (kid as int) < idx as int);
            }
            let od = self.nodes[kid].computed.outer_dim;
            proof {
                assert(crate::boxes::dims_of_computed(self@[kid as int].computed) == d[kid as int]);
                assert(od == d[kid as int].outer);
            }
            let om = match axis {
                Axis::Horizontal => od.0,
                Axis::Vertical => od.1,
            };
            let oc = match axis {
                Axis::Horizontal => od.1,
                Axis::Vertical => od.0,
            };
            let mainp = match amain {
                Alignment::Start => sat_add32(fx, running),
                Alignment::End => sat_sub32(sat_add32(fx, fm), sat_add32(running, om)),
                Alignment::Center => sat_add32(sat_add32(fx, space / 2), running),
                Alignment::Even => sat_add32(fx, sat_add32(running, gap)),
            };
            let crossp = match across {
                Alignment::Start => fy,
                Alignment::End => sat_sub32(sat_add32(fy, fc), oc),
                Alignment::Center => sat_add32(fy, sat_sub32(fc, oc) / 2),
                Alignment::Even => sat_add32(fy, sat_sub32(fc, core_cross) / 2),
            };
            proof {
                assert(mainp == kid_main_pos(fx, fm, space, gap, amain, running, om));
                assert(crossp == kid_cross_pos(fy, fc, across, oc, core_cross));
            }
            let cx = match axis {
                Axis::Horizontal => mainp,
                Axis::Vertical => crossp,
            };
            let cy = match axis {
                Axis::Horizontal => crossp,
                Axis::Vertical => mainp,
            };
            let ghost pre = self@;
            let ghost up_i = pos_union_prefix(
                t,
                d,
                idx as int,
                kids,
                i as int,
                axis,
                amain,
                across,
                fx,
                fy,
                fm,
                fc,
                space,
                gap,
                core_cross,
                u,
            );
            self.position(kid, info.shrink_frame(cx, cy, od.0, od.1));
            proof {
                let km = position_map(t, d, kid as int, cx, cy, u);
                lemma_apply_poss_keeps(s0, up_i);
                lemma_apply_poss_compose(s0, up_i, km);
                assert(pos_union_prefix(
                    t,
                    d,
                    idx as int,
                    kids,
                    i + 1,
                    axis,
                    amain,
                    across,
                    fx,
                    fy,
                    fm,
                    fc,
                    space,
                    gap,
                    core_cross,
                    u,
                ) == up_i.union_prefer_right(km));
            }
            running = match amain {
                Alignment::Even => sat_add32(running, sat_add32(om, gap)),
                _ => sat_add32(running, om),
            };
            proof {
                assert(running == running_prefix(d, kids, i + 1, axis, amain, gap));
            }
            i += 1;
        }
        let c0 = self.nodes[idx].computed;
        self.nodes[idx].computed = ComputedLayout {
            outer_pos: (x, y),
            inner_pos: (pix, piy),
            content_pos: (pcx, pcy),
            ..c0
        };
        proof {
            let pm = position_map(t, d, idx as int, x, y, u);
            let up_n = pos_union_prefix(
                t,
                d,
                idx as int,
                kids,
                klen as int,
                axis,
                amain,
                across,
                fx,
                fy,
                fm,
                fc,
                space,
                gap,
                core_cross,
                u,
            );
            assert(pm == up_n.insert(idx as int, own));
            lemma_apply_poss_insert(s0, up_n, idx as int, own);
            assert(self@ =~= apply_poss(s0, up_n).update(
                idx as int,
                with_poss(s0[idx as int], own),
            ));
            lemma_apply_poss_keeps(s0, pm);
        }
    }
}

} // verus!
