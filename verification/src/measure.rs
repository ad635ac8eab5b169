//! The measure pass: resolve every node's outer/inner/content/core
//! dimensions, top-down with budgets and bottom-up with child aggregates.
//!
//! The pass is specified by [`measure_map`], a recursive function from the
//! tree's structure and an available budget to the dimension layers of every
//! node of the subtree. Children that are not `Max`-sized are measured in
//! declaration order, each against the node's full content box; the at most
//! one `Max`-sized child is measured last against whatever main-axis budget
//! the others left over, clamped at zero. The node's core is the children's
//! outer extents summed along its axis and maximized across it, and a
//! `Content`-sized axis shrinks to the core plus padding and margin when the
//! core is smaller than the tentative content extent.

use vstd::prelude::*;

use crate::boxes::ComputedLayout;
use crate::boxes::Dims;
use crate::boxes::LayoutInfo;
use crate::node::Skel;
use crate::node::skel_of;
use crate::node::eff_h;
use crate::node::eff_main;
use crate::node::eff_v;
use crate::node::margin_h;
use crate::node::margin_w;
use crate::node::own_dims;
use crate::node::padding_h;
use crate::node::padding_w;
use crate::nums::max32;
use crate::nums::mul_wide;
use crate::nums::sat32;
use crate::nums::sat_add32;
use crate::nums::sat_add_wide;
use crate::nums::sat_sub32;
use crate::nums::sat_sub_wide;
use crate::size::Axis;
use crate::size::Size;
use crate::size::cross_of;
use crate::size::main_of;
use crate::size::pair_mc;
use crate::size::resolve_axis;
use crate::tree::apply_dims;
use crate::tree::lemma_apply_dims_compose;
use crate::tree::lemma_apply_dims_insert;
use crate::tree::lemma_skels_apply_dims;
use crate::tree::skels;
use crate::tree::with_dims;
use crate::validate::is_max_kid;

verus! {

broadcast use crate::tree::lemma_tree_view;

/// The first `Max`-sized child among the first `i` children, if any.
pub open spec fn find_max_prefix(t: Seq<Skel>, kids: Seq<int>, i: int, axis: Axis) -> Option<int>
    decreases i,
{
    if i <= 0 || i > kids.len() {
        None
    } else {
        match find_max_prefix(t, kids, i - 1, axis) {
            Some(k) => Some(k),
            None => if is_max_kid(t, kids[i - 1], axis) {
                Some(kids[i - 1])
            } else {
                None
            },
        }
    }
}

/// The main-axis budget left after the first `i` children: the content
/// extent, less each measured (non-`Max`) child's outer extent, clamped at
/// zero step by step.
pub open spec fn rem_prefix(
    t: Seq<Skel>,
    idx: int,
    kids: Seq<int>,
    i: int,
    bw: u32,
    bh: u32,
    u: u32,
    axis: Axis,
) -> u32
    decreases idx, 0int, i,
{
    if i <= 0 || i > kids.len() {
        main_of((bw, bh), axis)
    } else {
        let prev = rem_prefix(t, idx, kids, i - 1, bw, bh, u, axis);
        let kid = kids[i - 1];
        if !(0 <= kid < idx) || is_max_kid(t, kid, axis) {
            prev
        } else {
            sat32(prev - main_of(measure_map(t, kid, bw, bh, u)[kid].outer, axis))
        }
    }
}

/// The exact sum of the measured (non-`Max`) children's outer extents along
/// the axis, over the first `i` children.
pub open spec fn sum_prefix(
    t: Seq<Skel>,
    idx: int,
    kids: Seq<int>,
    i: int,
    bw: u32,
    bh: u32,
    u: u32,
    axis: Axis,
) -> int
    decreases idx, 0int, i,
{
    if i <= 0 || i > kids.len() {
        0
    } else {
        let prev = sum_prefix(t, idx, kids, i - 1, bw, bh, u, axis);
        let kid = kids[i - 1];
        if !(0 <= kid < idx) || is_max_kid(t, kid, axis) {
            prev
        } else {
            prev + main_of(measure_map(t, kid, bw, bh, u)[kid].outer, axis)
        }
    }
}

/// The largest outer extent across the axis among the measured (non-`Max`)
/// children, over the first `i` children.
pub open spec fn cross_prefix(
    t: Seq<Skel>,
    idx: int,
    kids: Seq<int>,
    i: int,
    bw: u32,
    bh: u32,
    u: u32,
    axis: Axis,
) -> u32
    decreases idx, 0int, i,
{
    if i <= 0 || i > kids.len() {
        0u32
    } else {
        let prev = cross_prefix(t, idx, kids, i - 1, bw, bh, u, axis);
        let kid = kids[i - 1];
        if !(0 <= kid < idx) || is_max_kid(t, kid, axis) {
            prev
        } else {
            crate::nums::spec_max32(
                prev,
                cross_of(measure_map(t, kid, bw, bh, u)[kid].outer, axis),
            )
        }
    }
}

/// The union of the dimension maps of the measured (non-`Max`) children,
/// over the first `i` children, in declaration order.
pub open spec fn union_prefix(
    t: Seq<Skel>,
    idx: int,
    kids: Seq<int>,
    i: int,
    bw: u32,
    bh: u32,
    u: u32,
    axis: Axis,
) -> Map<int, Dims>
    decreases idx, 0int, i,
{
    if i <= 0 || i > kids.len() {
        Map::empty()
    } else {
        let m = union_prefix(t, idx, kids, i - 1, bw, bh, u, axis);
        let kid = kids[i - 1];
        if !(0 <= kid < idx) || is_max_kid(t, kid, axis) {
            m
        } else {
            m.union_prefer_right(measure_map(t, kid, bw, bh, u))
        }
    }
}

/// A node's final dimensions: the tentative dims with each `Content`-sized
/// axis shrunk to the core plus padding and margin where the core is
/// smaller than the tentative content extent, and the core recorded.
pub open spec fn shrink_dims(k: Skel, d0: Dims, core: (u32, u32), u: u32) -> Dims {
    let w3 = if eff_h(k) is Content && core.0 < d0.content.0 {
        (
            sat32(core.0 + padding_w(k) * u + margin_w(k) * u),
            sat32(core.0 + padding_w(k) * u),
            core.0,
        )
    } else {
        (d0.outer.0, d0.inner.0, d0.content.0)
    };
    let h3 = if eff_v(k) is Content && core.1 < d0.content.1 {
        (
            sat32(core.1 + padding_h(k) * u + margin_h(k) * u),
            sat32(core.1 + padding_h(k) * u),
            core.1,
        )
    } else {
        (d0.outer.1, d0.inner.1, d0.content.1)
    };
    Dims { outer: (w3.0, h3.0), inner: (w3.1, h3.1), content: (w3.2, h3.2), core }
}

/// The dimension layers the measure pass assigns to every node of the
/// subtree rooted at `idx`, given an available `(w, h)` budget and the base
/// unit size `u`.
pub open spec fn measure_map(t: Seq<Skel>, idx: int, w: u32, h: u32, u: u32) -> Map<int, Dims>
    decreases idx, 1int, 0int,
{
    if !(0 <= idx < t.len()) {
        Map::empty()
    } else {
        let k = t[idx];
        let d0 = own_dims(k, w, h, u);
        let bw = d0.content.0;
        let bh = d0.content.1;
        let kids = k.children;
        let n = kids.len() as int;
        let axis = k.axis;
        let m_kids = union_prefix(t, idx, kids, n, bw, bh, u, axis);
        let sum_nm = sum_prefix(t, idx, kids, n, bw, bh, u, axis);
        let cross_nm = cross_prefix(t, idx, kids, n, bw, bh, u, axis);
        let mko = find_max_prefix(t, kids, n, axis);
        if mko is Some && 0 <= mko->Some_0 < idx {
            let mk = mko->Some_0;
            let rem = rem_prefix(t, idx, kids, n, bw, bh, u, axis);
            let mb = pair_mc(rem, cross_of((bw, bh), axis), axis);
            let m_max = measure_map(t, mk, mb.0, mb.1, u);
            let md = m_max[mk];
            let core_main = sat32(sum_nm + main_of(md.outer, axis));
            let core_cross = crate::nums::spec_max32(cross_nm, cross_of(md.outer, axis));
            let core = pair_mc(core_main, core_cross, axis);
            m_kids.union_prefer_right(m_max).insert(idx, shrink_dims(k, d0, core, u))
        } else {
            let core = pair_mc(sat32(sum_nm), cross_nm, axis);
            m_kids.insert(idx, shrink_dims(k, d0, core, u))
        }
    }
}

/// What measuring a subtree assigns to its root.
pub proof fn lemma_measure_contains_self(t: Seq<Skel>, idx: int, w: u32, h: u32, u: u32)
    requires
        0 <= idx < t.len(),
    ensures
        measure_map(t, idx, w, h, u).contains_key(idx),
{
}

/// What a subtree's root is assigned: its own tentative dimensions, shrunk
/// to the core it ends up with.
pub proof fn lemma_measure_self_shrink(t: Seq<Skel>, idx: int, w: u32, h: u32, u: u32)
    requires
        0 <= idx < t.len(),
    ensures
        ({
            let d = measure_map(t, idx, w, h, u)[idx];
            d == shrink_dims(t[idx], own_dims(t[idx], w, h, u), d.core, u)
        }),
{
}

/// A found `Max`-sized child is one of the children.
pub proof fn lemma_find_max_in_kids(t: Seq<Skel>, kids: Seq<int>, i: int, axis: Axis)
    requires
        find_max_prefix(t, kids, i, axis) is Some,
    ensures
        exists|j: int|
            0 <= j < i && 0 <= j < kids.len() && kids[j] == find_max_prefix(t, kids, i, axis)->Some_0
                && is_max_kid(t, kids[j], axis),
    decreases i,
{
    if 0 < i <= kids.len() {
        if find_max_prefix(t, kids, i - 1, axis) is Some {
            lemma_find_max_in_kids(t, kids, i - 1, axis);
        } else {
            assert(kids[i - 1] == find_max_prefix(t, kids, i, axis)->Some_0);
        }
    }
}

/// The budget left for a `Max`-sized child is the content extent less the
/// measured children's outer extents, clamped at zero.
pub proof fn lemma_rem_is_clamped_diff(
    t: Seq<Skel>,
    idx: int,
    kids: Seq<int>,
    i: int,
    bw: u32,
    bh: u32,
    u: u32,
    axis: Axis,
)
    ensures
        rem_prefix(t, idx, kids, i, bw, bh, u, axis) == sat32(
            main_of((bw, bh), axis) - sum_prefix(t, idx, kids, i, bw, bh, u, axis),
        ),
    decreases i,
{
    if 0 < i <= kids.len() {
        lemma_rem_is_clamped_diff(t, idx, kids, i - 1, bw, bh, u, axis);
        lemma_sum_prefix_nonneg(t, idx, kids, i - 1, bw, bh, u, axis);
    }
}

/// Outer extents are never negative, so neither is their running sum.
pub proof fn lemma_sum_prefix_nonneg(
    t: Seq<Skel>,
    idx: int,
    kids: Seq<int>,
    i: int,
    bw: u32,
    bh: u32,
    u: u32,
    axis: Axis,
)
    ensures
        sum_prefix(t, idx, kids, i, bw, bh, u, axis) >= 0,
    decreases i,
{
    if 0 < i <= kids.len() {
        lemma_sum_prefix_nonneg(t, idx, kids, i - 1, bw, bh, u, axis);
    }
}

impl crate::tree::LayoutTree {
    /// Measure the subtree rooted at `idx` against the frame's available
    /// extent: every node of the subtree gets the dimension layers that
    /// [`measure_map`] assigns, and nothing else changes.
    pub fn measure(&mut self, idx: usize, info: LayoutInfo)
        requires
            old(self).wf(),
            idx < old(self)@.len(),
            crate::validate::spec_validate(skels(old(self)@), idx as int) is Ok,
        ensures
            final(self).wf(),
            skels(final(self)@) == skels(old(self)@),
            final(self)@ == apply_dims(
                old(self)@,
                measure_map(
                    skels(old(self)@),
                    idx as int,
                    info.width,
                    info.height,
                    info.unit_size,
                ),
            ),
        decreases idx,
    {
        let ghost s0 = self@;
        let ghost t = skels(self@);
        let u = info.unit_size;
        proof {
            assert(t[idx as int] == skel_of(self@[idx as int]));
        }
        let hm = self.nodes[idx].horizontal();
        let vm = self.nodes[idx].vertical();
        let ow = resolve_axis(hm, info.width, u);
        let oh = resolve_axis(vm, info.height, u);
        let mw = (self.nodes[idx].margin.left as u128) + (self.nodes[idx].margin.right as u128);
        let mh = (self.nodes[idx].margin.top as u128) + (self.nodes[idx].margin.bottom as u128);
        let pw = (self.nodes[idx].padding.left as u128) + (self.nodes[idx].padding.right as u128);
        let ph = (self.nodes[idx].padding.top as u128) + (self.nodes[idx].padding.bottom as u128);
        let mwu = mul_wide(mw, u as u128);
        let mhu = mul_wide(mh, u as u128);
        let pwu = mul_wide(pw, u as u128);
        let phu = mul_wide(ph, u as u128);
        let iw = sat_sub_wide(ow, mwu);
        let ih = sat_sub_wide(oh, mhu);
        let cw = sat_sub_wide(iw, pwu);
        let ch = sat_sub_wide(ih, phu);
        let ghost d0 = own_dims(t[idx as int], info.width, info.height, u);
        proof {
            assert(d0 == (Dims {
                outer: (ow, oh),
                inner: (iw, ih),
                content: (cw, ch),
                core: (0u32, 0u32),
            }));
        }
        let axis = self.nodes[idx].axis;
        let klen = self.nodes[idx].children.len();
        let ghost kids = t[idx as int].children;
        let mut rem: u32 = match axis {
            Axis::Horizontal => cw,
            Axis::Vertical => ch,
        };
        let mut sum: u32 = 0;
        let mut cross: u32 = 0;
        let mut maxk: Option<usize> = None;
        let mut i: usize = 0;
        while i < klen
            invariant
                self.wf(),
                idx < self@.len(),
                self@.len() == s0.len(),
                t == skels(self@),
                t == skels(s0),
                crate::validate::spec_validate(t, idx as int) is Ok,
                t[idx as int] == skel_of(self@[idx as int]),
                kids == t[idx as int].children,
                klen == kids.len(),
                axis == t[idx as int].axis,
                u == info.unit_size,
                i <= klen,
                self@ == apply_dims(s0, union_prefix(t, idx as int, kids, i as int, cw, ch, u, axis)),
                rem == rem_prefix(t, idx as int, kids, i as int, cw, ch, u, axis),
                sum == sat32(sum_prefix(t, idx as int, kids, i as int, cw, ch, u, axis)),
                cross == cross_prefix(t, idx as int, kids, i as int, cw, ch, u, axis),
                match maxk {
                    Some(k) => find_max_prefix(t, kids, i as int, axis) == Some(k as int)
                        && (exists|j: int| 0 <= j < i && kids[j] == k as int),
                    None => find_max_prefix(t, kids, i as int, axis) is None,
                },
            decreases klen - i,
        {
            proof {
                crate::validate::lemma_validate_ok_unfold(t, idx as int);
            }
            let kid = self.nodes[idx].children[i];
            proof {
                assert(kids[i as int] == kid as int);
                assert(0 <= (kid as int) < idx as int);
                assert(t[kid as int] == skel_of(self@[kid as int]));
            }
            let em = match axis {
                Axis::Horizontal => self.nodes[kid].horizontal(),
                Axis::Vertical => self.nodes[kid].vertical(),
            };
            proof {
                assert(em == eff_main(t[kid as int], axis));
            }
            if em == Size::Max {
                proof {
                    assert(is_max_kid(t, kid as int, axis));
                }
                if maxk.is_none() {
                    maxk = Some(kid);
                }
            } else {
                let ghost pre = self@;
                let ghost up_i = union_prefix(t, idx as int, kids, i as int, cw, ch, u, axis);
                self.measure(kid, info.shrink(cw, ch));
                proof {
                    let mk_map = measure_map(t, kid as int, cw, ch, u);
                    lemma_skels_apply_dims(s0, up_i);
                    lemma_apply_dims_compose(s0, up_i, mk_map);
                    assert(!is_max_kid(t, kid as int, axis));
                    assert(union_prefix(t, idx as int, kids, i + 1, cw, ch, u, axis) == up_i
                        .union_prefer_right(mk_map));
                    lemma_measure_contains_self(t, kid as int, cw, ch, u);
                    assert(self@[kid as int] == with_dims(pre[kid as int], mk_map[kid as int]));
                    lemma_sum_prefix_nonneg(t, idx as int, kids, i as int, cw, ch, u, axis);
                }
                let om = match axis {
                    Axis::Horizontal => self.nodes[kid].computed.outer_dim.0,
                    Axis::Vertical => self.nodes[kid].computed.outer_dim.1,
                };
                let oc = match axis {
                    Axis::Horizontal => self.nodes[kid].computed.outer_dim.1,
                    Axis::Vertical => self.nodes[kid].computed.outer_dim.0,
                };
                proof {
                    assert(om == main_of(measure_map(t, kid as int, cw, ch, u)[kid as int].outer, axis));
                    assert(oc == cross_of(measure_map(t, kid as int, cw, ch, u)[kid as int].outer, axis));
                }
                rem = sat_sub32(rem, om);
                sum = sat_add32(sum, om);
                cross = max32(cross, oc);
            }
            i += 1;
        }
        let mut core_main: u32 = sum;
        let mut core_cross: u32 = cross;
        let ghost m_before: Map<int, Dims>;
        match maxk {
            Some(mk) => {
                let mbw = match axis {
                    Axis::Horizontal => rem,
                    Axis::Vertical => cw,
                };
                let mbh = match axis {
                    Axis::Horizontal => ch,
                    Axis::Vertical => rem,
                };
                proof {
                    crate::validate::lemma_validate_ok_unfold(t, idx as int);
                    let j = choose|j: int| 0 <= j < klen && kids[j] == mk as int;
                    assert(0 <= (mk as int) < idx as int);
                }
                let ghost pre = self@;
                let ghost up_n = union_prefix(t, idx as int, kids, klen as int, cw, ch, u, axis);
                self.measure(mk, info.shrink(mbw, mbh));
                proof {
                    let m_max = measure_map(t, mk as int, mbw, mbh, u);
                    lemma_skels_apply_dims(s0, up_n);
                    lemma_apply_dims_compose(s0, up_n, m_max);
                    lemma_measure_contains_self(t, mk as int, mbw, mbh, u);
                    assert(self@[mk as int] == with_dims(pre[mk as int], m_max[mk as int]));
                    lemma_sum_prefix_nonneg(t, idx as int, kids, klen as int, cw, ch, u, axis);
                    m_before = up_n.union_prefer_right(m_max);
                }
                let om = match axis {
                    Axis::Horizontal => self.nodes[mk].computed.outer_dim.0,
                    Axis::Vertical => self.nodes[mk].computed.outer_dim.1,
                };
                let oc = match axis {
                    Axis::Horizontal => self.nodes[mk].computed.outer_dim.1,
                    Axis::Vertical => self.nodes[mk].computed.outer_dim.0,
                };
                core_main = sat_add32(sum, om);
                core_cross = max32(cross, oc);
            },
            None => {
                proof {
                    m_before = union_prefix(t, idx as int, kids, klen as int, cw, ch, u, axis);
                }
            },
        }
        let core: (u32, u32) = match axis {
            Axis::Horizontal => (core_main, core_cross),
            Axis::Vertical => (core_cross, core_main),
        };
        let mut ow2 = ow;
        let mut iw2 = iw;
        let mut cw2 = cw;
        if hm == Size::Content && core.0 < cw {
            cw2 = core.0;
            iw2 = sat_add_wide(core.0, pwu);
            ow2 = sat_add_wide(iw2, mwu);
            proof {
                assert(ow2 == sat32(core.0 + padding_w(t[idx as int]) * u + margin_w(t[idx as int])
                    * u));
            }
        }
        let mut oh2 = oh;
        let mut ih2 = ih;
        let mut ch2 = ch;
        if vm == Size::Content && core.1 < ch {
            ch2 = core.1;
            ih2 = sat_add_wide(core.1, phu);
            oh2 = sat_add_wide(ih2, mhu);
            proof {
                assert(oh2 == sat32(core.1 + padding_h(t[idx as int]) * u + margin_h(t[idx as int])
                    * u));
            }
        }
        let c0 = self.nodes[idx].computed;
        self.nodes[idx].computed = ComputedLayout {
            outer_dim: (ow2, oh2),
            inner_dim: (iw2, ih2),
            content_dim: (cw2, ch2),
            core_dim: core,
            ..c0
        };
        proof {
            let mm = measure_map(t, idx as int, info.width, info.height, u);
            let d1 = shrink_dims(t[idx as int], d0, core, u);
            assert(mm == m_before.insert(idx as int, d1));
            lemma_apply_dims_insert(s0, m_before, idx as int, d1);
            assert(self@ =~= apply_dims(s0, m_before).update(
                idx as int,
                with_dims(s0[idx as int], d1),
            ));
            lemma_skels_apply_dims(s0, mm);
        }
    }
}

} // verus!
