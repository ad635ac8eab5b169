//! Laws of the layout engine, each proved against the specifications the
//! executable passes are verified against.

use vstd::prelude::*;

use crate::engine::preorder_kids;
use crate::engine::spec_calculate;
use crate::engine::spec_preorder;
use crate::measure::find_max_prefix;
use crate::measure::lemma_find_max_in_kids;
use crate::measure::lemma_measure_self_shrink;
use crate::measure::lemma_rem_is_clamped_diff;
use crate::measure::lemma_sum_prefix_nonneg;
use crate::measure::measure_map;
use crate::measure::shrink_dims;
use crate::measure::sum_prefix;
use crate::node::Layout;
use crate::node::Skel;
use crate::node::eff_h;
use crate::node::eff_main;
use crate::node::eff_v;
use crate::node::margin_h;
use crate::node::margin_w;
use crate::node::own_dims;
use crate::node::padding_h;
use crate::node::padding_w;
use crate::nums::sat32;
use crate::position::position_map;
use crate::size::LayoutError;
use crate::size::Size;
use crate::size::main_of;
use crate::tree::apply_dims;
use crate::tree::apply_poss;
use crate::tree::dims_of;
use crate::tree::lemma_apply_poss_keeps;
use crate::tree::lemma_skels_apply_dims;
use crate::tree::skels;
use crate::tree::tree_wf;
use crate::validate::count_max_prefix;
use crate::validate::spec_validate;

verus! {

/// A leaf sized `Unit(fw) x Unit(fh)` at base unit `u` gets the outer
/// extent `(fw * u, fh * u)` exactly, whatever budget it is laid out
/// against, as long as the products fit in an extent.
pub proof fn lemma_unit_leaf_exact(s: Seq<Layout>, fw: u32, fh: u32, w: u32, h: u32, u: u32)
    requires
        tree_wf(skels(s)),
        s.len() > 0,
        skels(s)[s.len() - 1].hsize == Size::Unit(fw),
        skels(s)[s.len() - 1].vsize == Size::Unit(fh),
        skels(s)[s.len() - 1].children.len() == 0,
        fw * u <= u32::MAX,
        fh * u <= u32::MAX,
    ensures
        spec_calculate(s, w, h, u) is Ok,
        spec_calculate(s, w, h, u)->Ok_0[s.len() - 1].computed.outer_dim == (
            (fw * u) as u32,
            (fh * u) as u32,
        ),
{
    let t = skels(s);
    let root = s.len() - 1;
    let k = t[root as int];
    assert(spec_validate(t, root as int) is Ok);
    let mm = measure_map(t, root as int, w, h, u);
    let d0 = own_dims(k, w, h, u);
    assert(d0.outer == ((fw * u) as u32, (fh * u) as u32));
    let bw = d0.content.0;
    let bh = d0.content.1;
    assert(crate::measure::union_prefix(t, root as int, k.children, 0, bw, bh, u, k.axis)
        =~= Map::<int, crate::boxes::Dims>::empty());
    assert(sum_prefix(t, root as int, k.children, 0, bw, bh, u, k.axis) == 0);
    assert(crate::measure::cross_prefix(t, root as int, k.children, 0, bw, bh, u, k.axis) == 0);
    assert(find_max_prefix(t, k.children, 0, k.axis) is None);
    assert(crate::size::pair_mc(sat32(0), 0u32, k.axis) == (0u32, 0u32));
    assert(mm == Map::empty().insert(root as int, shrink_dims(k, d0, (0u32, 0u32), u)));
    assert(mm[root as int].outer == d0.outer);
    let s1 = apply_dims(s, mm);
    assert(s1[root as int].computed.outer_dim == d0.outer);
    let pm = position_map(t, dims_of(s1), root as int, 0u32, 0u32, u);
    let s2 = apply_poss(s1, pm);
    assert(s2[root as int].computed.outer_dim == d0.outer);
}

/// On a node whose children are all fixed- or `Max`-sized on its axis,
/// with a `Max`-sized child present and the fixed children fitting into the
/// content extent, the children's outer extents sum exactly to the node's
/// content extent: the `Max` child takes the whole remainder and no
/// alignment gap is left.
pub proof fn lemma_max_child_fills_content(t: Seq<Skel>, idx: int, w: u32, h: u32, u: u32)
    requires
        tree_wf(t),
        0 <= idx < t.len(),
        spec_validate(t, idx) is Ok,
        forall|j: int|
            0 <= j < t[idx].children.len() ==> (eff_main(
                t[#[trigger] t[idx].children[j]],
                t[idx].axis,
            ) is Max || eff_main(t[t[idx].children[j]], t[idx].axis) is Unit || eff_main(
                t[t[idx].children[j]],
                t[idx].axis,
            ) is Relative),
        find_max_prefix(t, t[idx].children, t[idx].children.len() as int, t[idx].axis) is Some,
        ({
            let d0 = own_dims(t[idx], w, h, u);
            sum_prefix(
                t,
                idx,
                t[idx].children,
                t[idx].children.len() as int,
                d0.content.0,
                d0.content.1,
                u,
                t[idx].axis,
            ) <= main_of(d0.content, t[idx].axis)
        }),
    ensures
        ({
            let d = measure_map(t, idx, w, h, u)[idx];
            main_of(d.core, t[idx].axis) == main_of(d.content, t[idx].axis)
        }),
{
    let k = t[idx];
    let axis = k.axis;
    let kids = k.children;
    let n = kids.len() as int;
    let d0 = own_dims(k, w, h, u);
    let bw = d0.content.0;
    let bh = d0.content.1;
    let cm = main_of(d0.content, axis);
    let sum_nm = sum_prefix(t, idx, kids, n, bw, bh, u, axis);
    lemma_sum_prefix_nonneg(t, idx, kids, n, bw, bh, u, axis);
    lemma_find_max_in_kids(t, kids, n, axis);
    let mk = find_max_prefix(t, kids, n, axis)->Some_0;
    let j = choose|j: int|
        0 <= j < n && 0 <= j < kids.len() && kids[j] == mk && crate::validate::is_max_kid(
            t,
            kids[j],
            axis,
        );
    assert(0 <= mk < idx);
    lemma_rem_is_clamped_diff(t, idx, kids, n, bw, bh, u, axis);
    let rem = crate::measure::rem_prefix(t, idx, kids, n, bw, bh, u, axis);
    assert(rem == cm - sum_nm);
    let mb = crate::size::pair_mc(rem, crate::size::cross_of((bw, bh), axis), axis);
    lemma_measure_self_shrink(t, mk, mb.0, mb.1, u);
    let md = measure_map(t, mk, mb.0, mb.1, u)[mk];
    assert(main_of(own_dims(t[mk], mb.0, mb.1, u).outer, axis) == rem);
    assert(main_of(md.outer, axis) == rem);
    assert(main_of(measure_map(t, idx, w, h, u)[idx].core, axis) == sat32(sum_nm + rem));
    lemma_measure_self_shrink(t, idx, w, h, u);
}

/// A `Content`-sized width shrinks to the core plus padding plus margin
/// when the children need less than the tentative content extent, and the
/// outer width never exceeds the tentative one.
pub proof fn lemma_content_shrinks_to_core_w(t: Seq<Skel>, idx: int, w: u32, h: u32, u: u32)
    requires
        0 <= idx < t.len(),
        eff_h(t[idx]) is Content,
    ensures
        ({
            let d = measure_map(t, idx, w, h, u)[idx];
            let d0 = own_dims(t[idx], w, h, u);
            &&& d.outer.0 <= d0.outer.0
            &&& (d.core.0 < d0.content.0 ==> d.outer.0 == d.core.0 + padding_w(t[idx]) * u
                + margin_w(t[idx]) * u)
        }),
{
    lemma_measure_self_shrink(t, idx, w, h, u);
    let d = measure_map(t, idx, w, h, u)[idx];
    let d0 = own_dims(t[idx], w, h, u);
    if d.core.0 < d0.content.0 {
        assert(d0.content.0 > 0);
        assert(d0.content.0 == d0.inner.0 - padding_w(t[idx]) * u);
        assert(d0.inner.0 > 0);
        assert(d0.inner.0 == d0.outer.0 - margin_w(t[idx]) * u);
        assert(d.core.0 + padding_w(t[idx]) * u + margin_w(t[idx]) * u < d0.outer.0);
    }
}

/// A `Content`-sized height shrinks to the core plus padding plus margin
/// when the children need less than the tentative content extent, and the
/// outer height never exceeds the tentative one.
pub proof fn lemma_content_shrinks_to_core_h(t: Seq<Skel>, idx: int, w: u32, h: u32, u: u32)
    requires
        0 <= idx < t.len(),
        eff_v(t[idx]) is Content,
    ensures
        ({
            let d = measure_map(t, idx, w, h, u)[idx];
            let d0 = own_dims(t[idx], w, h, u);
            &&& d.outer.1 <= d0.outer.1
            &&& (d.core.1 < d0.content.1 ==> d.outer.1 == d.core.1 + padding_h(t[idx]) * u
                + margin_h(t[idx]) * u)
        }),
{
    lemma_measure_self_shrink(t, idx, w, h, u);
    let d = measure_map(t, idx, w, h, u)[idx];
    let d0 = own_dims(t[idx], w, h, u);
    if d.core.1 < d0.content.1 {
        assert(d0.content.1 > 0);
        assert(d0.content.1 == d0.inner.1 - padding_h(t[idx]) * u);
        assert(d0.inner.1 > 0);
        assert(d0.inner.1 == d0.outer.1 - margin_h(t[idx]) * u);
        assert(d.core.1 + padding_h(t[idx]) * u + margin_h(t[idx]) * u < d0.outer.1);
    }
}

/// A root whose axis carries more than one `Max`-sized child makes the
/// whole call fail with `MultipleMaxChildren`, and `calculate` then leaves
/// every computed box unchanged.
pub proof fn lemma_multiple_max_children(s: Seq<Layout>, w: u32, h: u32, u: u32)
    requires
        s.len() > 0,
        !(skels(s)[s.len() - 1].hsize is Same && skels(s)[s.len() - 1].vsize is Same),
        count_max_prefix(
            skels(s),
            skels(s)[s.len() - 1].children,
            skels(s)[s.len() - 1].children.len() as int,
            skels(s)[s.len() - 1].axis,
        ) >= 2,
    ensures
        spec_calculate(s, w, h, u) == Err::<Seq<Layout>, LayoutError>(
            LayoutError::MultipleMaxChildren,
        ),
{
}

/// A root with `Same` sizing on both axes makes the whole call fail with
/// `DoubleSameSized`, and `calculate` then leaves every computed box
/// unchanged.
pub proof fn lemma_double_same_sized(s: Seq<Layout>, w: u32, h: u32, u: u32)
    requires
        s.len() > 0,
        skels(s)[s.len() - 1].hsize is Same,
        skels(s)[s.len() - 1].vsize is Same,
    ensures
        spec_calculate(s, w, h, u) == Err::<Seq<Layout>, LayoutError>(LayoutError::DoubleSameSized),
{
}

/// In a tree that passes validation, no node that the passes will visit is
/// `Same`-sized on both axes: the fault is always caught up front, on any
/// node of the subtree, not only on the root.
pub proof fn lemma_validated_subtree_never_double_same(t: Seq<Skel>, idx: int)
    requires
        spec_validate(t, idx) is Ok,
    ensures
        forall|p: int|
            0 <= p < spec_preorder(t, idx).len() ==> !(t[#[trigger] spec_preorder(t, idx)[p]].hsize
                is Same && t[spec_preorder(t, idx)[p]].vsize is Same),
    decreases idx, 1int, 0int,
{
    if 0 <= idx < t.len() {
        crate::validate::lemma_validate_ok_unfold(t, idx);
        lemma_preorder_kids_never_double_same(
            t,
            idx,
            t[idx].children,
            t[idx].children.len() as int,
        );
    }
}

/// The subtrees of the first `i` validated children hold no node that is
/// `Same`-sized on both axes.
proof fn lemma_preorder_kids_never_double_same(t: Seq<Skel>, idx: int, kids: Seq<int>, i: int)
    requires
        forall|j: int|
            0 <= j < kids.len() && 0 <= #[trigger] kids[j] < idx ==> spec_validate(t, kids[j]) is Ok,
    ensures
        forall|p: int|
            0 <= p < preorder_kids(t, idx, kids, i).len() ==> !(t[#[trigger] preorder_kids(
                t,
                idx,
                kids,
                i,
            )[p]].hsize is Same && t[preorder_kids(t, idx, kids, i)[p]].vsize is Same),
    decreases idx, 0int, i,
{
    if 0 < i <= kids.len() {
        lemma_preorder_kids_never_double_same(t, idx, kids, i - 1);
        if 0 <= kids[i - 1] < idx {
            lemma_validated_subtree_never_double_same(t, kids[i - 1]);
        }
    }
}

/// Laying out a tree twice with the same viewport and unit gives the same
/// computed boxes: a second `calculate` call reproduces the first one's
/// state exactly.
pub proof fn lemma_calculate_idempotent(s: Seq<Layout>, w: u32, h: u32, u: u32)
    requires
        spec_calculate(s, w, h, u) is Ok,
    ensures
        spec_calculate(spec_calculate(s, w, h, u)->Ok_0, w, h, u) == spec_calculate(s, w, h, u),
{
    if s.len() == 0 {
    } else {
        let t = skels(s);
        let root = s.len() - 1;
        let mm = measure_map(t, root as int, w, h, u);
        let s1 = apply_dims(s, mm);
        let pm = position_map(t, dims_of(s1), root as int, 0u32, 0u32, u);
        let s2 = apply_poss(s1, pm);
        lemma_skels_apply_dims(s, mm);
        lemma_apply_poss_keeps(s1, pm);
        assert(skels(s2) == t);
        assert(s2.len() == s.len());
        let s1b = apply_dims(s2, mm);
        assert(dims_of(s1b) =~= dims_of(s1));
        let pm2 = position_map(skels(s2), dims_of(s1b), root as int, 0u32, 0u32, u);
        assert(pm2 == pm);
        let s2b = apply_poss(s1b, pm2);
        assert(s2b =~= s2);
        assert(spec_calculate(s2, w, h, u) == Ok::<Seq<Layout>, LayoutError>(s2b));
    }
}

} // verus!
