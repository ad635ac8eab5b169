//! A layout node: per-axis sizing modes, alignment, box-model sides, the
//! children it arranges and its computed box.

use vstd::prelude::*;

use crate::boxes::ComputedLayout;
use crate::boxes::Dims;
use crate::boxes::Sides;
use crate::boxes::spec_zero_computed;
use crate::nums::sat32;
use crate::nums::sat_sub_wide;
use crate::size::Alignment;
use crate::size::Axis;
use crate::size::LayoutError;
use crate::size::Size;
use crate::size::eff;
use crate::size::resolve_axis;
use crate::size::resolve_or;
use crate::size::spec_resolve;

verus! {

/// One node of a layout tree. Children are indices into the owning
/// [`crate::tree::LayoutTree`] arena and always point at earlier slots.
pub struct Layout {
    pub margin: Sides,
    pub padding: Sides,
    /// Carried through the box model but not yet consumed by it.
    pub border: Sides,
    pub axis: Axis,
    pub hsize: Size,
    pub vsize: Size,
    pub halign: Alignment,
    pub valign: Alignment,
    pub computed: ComputedLayout,
    pub children: Vec<usize>,
}

/// The structural part of a node: everything a layout pass reads, with the
/// computed box left out.
pub ghost struct Skel {
    pub margin: Sides,
    pub padding: Sides,
    pub border: Sides,
    pub axis: Axis,
    pub hsize: Size,
    pub vsize: Size,
    pub halign: Alignment,
    pub valign: Alignment,
    pub children: Seq<int>,
}

/// The structural view of a node.
pub open spec fn skel_of(n: Layout) -> Skel {
    Skel {
        margin: n.margin,
        padding: n.padding,
        border: n.border,
        axis: n.axis,
        hsize: n.hsize,
        vsize: n.vsize,
        halign: n.halign,
        valign: n.valign,
        children: n.children@.map_values(|c: usize| c as int),
    }
}

/// The effective horizontal mode: `Same` mirrors the vertical mode.
pub open spec fn eff_h(k: Skel) -> Size {
    eff(k.hsize, k.vsize)
}

/// The effective vertical mode: `Same` mirrors the horizontal mode.
pub open spec fn eff_v(k: Skel) -> Size {
    eff(k.vsize, k.hsize)
}

/// The effective mode of a node on a given axis.
pub open spec fn eff_main(k: Skel, axis: Axis) -> Size {
    match axis {
        Axis::Horizontal => eff_h(k),
        Axis::Vertical => eff_v(k),
    }
}

/// Horizontal margin total, in unit multiples.
pub open spec fn margin_w(k: Skel) -> int {
    k.margin.left + k.margin.right
}

/// Vertical margin total, in unit multiples.
pub open spec fn margin_h(k: Skel) -> int {
    k.margin.top + k.margin.bottom
}

/// Horizontal padding total, in unit multiples.
pub open spec fn padding_w(k: Skel) -> int {
    k.padding.left + k.padding.right
}

/// Vertical padding total, in unit multiples.
pub open spec fn padding_h(k: Skel) -> int {
    k.padding.top + k.padding.bottom
}

/// The tentative outer/inner/content dimensions of a node against an
/// available `(w, h)` budget, before any shrink to content: the outer extent
/// is the resolved mode, the inner extent subtracts the margins, the content
/// extent subtracts the padding, each clamped at zero. The core is zero
/// until the children are aggregated.
pub open spec fn own_dims(k: Skel, w: u32, h: u32, u: u32) -> Dims {
    let ow = resolve_or(eff_h(k), w, u);
    let oh = resolve_or(eff_v(k), h, u);
    let iw = sat32(ow - margin_w(k) * u);
    let ih = sat32(oh - margin_h(k) * u);
    let cw = sat32(iw - padding_w(k) * u);
    let ch = sat32(ih - padding_h(k) * u);
    Dims { outer: (ow, oh), inner: (iw, ih), content: (cw, ch), core: (0u32, 0u32) }
}

impl Layout {
    /// A fresh node: content-sized on both axes, horizontal, start-aligned,
    /// without margins, padding, border or children.
    pub fn new() -> (r: Layout)
        ensures
            r.margin == (Sides { left: 0u32, right: 0u32, top: 0u32, bottom: 0u32 }),
            r.padding == r.margin,
            r.border == r.margin,
            r.axis == Axis::Horizontal,
            r.hsize == Size::Content,
            r.vsize == Size::Content,
            r.halign == Alignment::Start,
            r.valign == Alignment::Start,
            r.computed == spec_zero_computed(),
            r.children@ =~= Seq::<usize>::empty(),
    {
        Layout {
            margin: Sides::zero(),
            padding: Sides::zero(),
            border: Sides::zero(),
            axis: Axis::Horizontal,
            hsize: Size::Content,
            vsize: Size::Content,
            halign: Alignment::Start,
            valign: Alignment::Start,
            computed: ComputedLayout::new(),
            children: Vec::new(),
        }
    }

    /// Set the horizontal sizing mode.
    pub fn with_width(self, sizing: Size) -> (r: Layout)
        ensures
            r == (Layout { hsize: sizing, ..self }),
    {
        Layout { hsize: sizing, ..self }
    }

    /// Set the vertical sizing mode.
    pub fn with_height(self, sizing: Size) -> (r: Layout)
        ensures
            r == (Layout { vsize: sizing, ..self }),
    {
        Layout { vsize: sizing, ..self }
    }

    /// Arrange the given children (arena indices) along the horizontal axis,
    /// after any children already present.
    pub fn with_horizontal(self, children: Vec<usize>) -> (r: Layout)
        ensures
            r.children@ == self.children@ + children@,
            r == (Layout { axis: Axis::Horizontal, children: r.children, ..self }),
    {
        let mut kids = self.children;
        let mut more = children;
        kids.append(&mut more);
        Layout { axis: Axis::Horizontal, children: kids, ..self }
    }

    /// Arrange the given children (arena indices) along the vertical axis,
    /// after any children already present.
    pub fn with_vertical(self, children: Vec<usize>) -> (r: Layout)
        ensures
            r.children@ == self.children@ + children@,
            r == (Layout { axis: Axis::Vertical, children: r.children, ..self }),
    {
        let mut kids = self.children;
        let mut more = children;
        kids.append(&mut more);
        Layout { axis: Axis::Vertical, children: kids, ..self }
    }

    /// Set the alignment of the direction matching the node's current axis.
    pub fn with_align(self, align: Alignment) -> (r: Layout)
        ensures
            self.axis is Horizontal ==> r == (Layout { halign: align, ..self }),
            self.axis is Vertical ==> r == (Layout { valign: align, ..self }),
    {
        match self.axis {
            Axis::Horizontal => Layout { halign: align, ..self },
            Axis::Vertical => Layout { valign: align, ..self },
        }
    }

    /// Set a uniform margin on all four sides.
    pub fn with_margin(self, margin: u32) -> (r: Layout)
        ensures
            r == (Layout { margin: Sides { left: margin, right: margin, top: margin, bottom: margin }, ..self }),
    {
        Layout { margin: Sides::uniform(margin), ..self }
    }

    /// Set the margins per axis pair.
    pub fn with_margin_axis(self, xmargin: u32, ymargin: u32) -> (r: Layout)
        ensures
            r == (Layout { margin: Sides { left: xmargin, right: xmargin, top: ymargin, bottom: ymargin }, ..self }),
    {
        Layout { margin: Sides::per_axis(xmargin, ymargin), ..self }
    }

    /// Set each margin side.
    pub fn with_margin_all(self, left: u32, right: u32, top: u32, bottom: u32) -> (r: Layout)
        ensures
            r == (Layout { margin: Sides { left, right, top, bottom }, ..self }),
    {
        Layout { margin: Sides { left, right, top, bottom }, ..self }
    }

    /// Set a uniform padding on all four sides.
    pub fn with_padding(self, padding: u32) -> (r: Layout)
        ensures
            r == (Layout { padding: Sides { left: padding, right: padding, top: padding, bottom: padding }, ..self }),
    {
        Layout { padding: Sides::uniform(padding), ..self }
    }

    /// Set the padding per axis pair.
    pub fn with_padding_axis(self, xpadding: u32, ypadding: u32) -> (r: Layout)
        ensures
            r == (Layout { padding: Sides { left: xpadding, right: xpadding, top: ypadding, bottom: ypadding }, ..self }),
    {
        Layout { padding: Sides::per_axis(xpadding, ypadding), ..self }
    }

    /// Set each padding side.
    pub fn with_padding_all(self, left: u32, right: u32, top: u32, bottom: u32) -> (r: Layout)
        ensures
            r == (Layout { padding: Sides { left, right, top, bottom }, ..self }),
    {
        Layout { padding: Sides { left, right, top, bottom }, ..self }
    }

    /// The effective horizontal sizing mode: `Same` mirrors the vertical one.
    pub fn horizontal(&self) -> (r: Size)
        ensures
            r == eff_h(skel_of(*self)),
    {
        if self.hsize != Size::Same {
            self.hsize
        } else {
            self.vsize
        }
    }

    /// The effective vertical sizing mode: `Same` mirrors the horizontal one.
    pub fn vertical(&self) -> (r: Size)
        ensures
            r == eff_v(skel_of(*self)),
    {
        if self.vsize != Size::Same {
            self.vsize
        } else {
            self.hsize
        }
    }

    /// The node's outer width against an available extent, or
    /// `DoubleSameSized` if both axes are `Same`.
    pub fn width(&self, width: u32, unit_size: u32) -> (r: Result<u32, LayoutError>)
        ensures
            r == spec_width(skel_of(*self), width, unit_size),
    {
        let m = self.horizontal();
        if m == Size::Same {
            Err(LayoutError::DoubleSameSized)
        } else {
            Ok(resolve_axis(m, width, unit_size))
        }
    }

    /// The node's inner width: the outer width shrunk by the horizontal
    /// margins, clamped at zero.
    pub fn inner_width(&self, width: u32, unit_size: u32) -> (r: Result<u32, LayoutError>)
        ensures
            r == spec_inner_width(skel_of(*self), width, unit_size),
    {
        match self.width(width, unit_size) {
            Err(e) => Err(e),
            Ok(ow) => Ok(
                sat_sub_wide(
                    ow,
                    crate::nums::mul_wide((self.margin.left as u128) + (self.margin.right as u128), unit_size as u128),
                ),
            ),
        }
    }

    /// The node's content width: the inner width shrunk by the horizontal
    /// padding, clamped at zero.
    pub fn content_width(&self, width: u32, unit_size: u32) -> (r: Result<u32, LayoutError>)
        ensures
            r == spec_content_width(skel_of(*self), width, unit_size),
    {
        match self.inner_width(width, unit_size) {
            Err(e) => Err(e),
            Ok(iw) => Ok(
                sat_sub_wide(
                    iw,
                    crate::nums::mul_wide((self.padding.left as u128) + (self.padding.right as u128), unit_size as u128),
                ),
            ),
        }
    }

    /// The node's outer height against an available extent, or
    /// `DoubleSameSized` if both axes are `Same`.
    pub fn height(&self, height: u32, unit_size: u32) -> (r: Result<u32, LayoutError>)
        ensures
            r == spec_height(skel_of(*self), height, unit_size),
    {
        let m = self.vertical();
        if m == Size::Same {
            Err(LayoutError::DoubleSameSized)
        } else {
            Ok(resolve_axis(m, height, unit_size))
        }
    }

    /// The node's inner height: the outer height shrunk by the vertical
    /// margins, clamped at zero.
    pub fn inner_height(&self, height: u32, unit_size: u32) -> (r: Result<u32, LayoutError>)
        ensures
            r == spec_inner_height(skel_of(*self), height, unit_size),
    {
        match self.height(height, unit_size) {
            Err(e) => Err(e),
            Ok(oh) => Ok(
                sat_sub_wide(
                    oh,
                    crate::nums::mul_wide((self.margin.top as u128) + (self.margin.bottom as u128), unit_size as u128),
                ),
            ),
        }
    }

    /// The node's content height: the inner height shrunk by the vertical
    /// padding, clamped at zero.
    pub fn content_height(&self, height: u32, unit_size: u32) -> (r: Result<u32, LayoutError>)
        ensures
            r == spec_content_height(skel_of(*self), height, unit_size),
    {
        match self.inner_height(height, unit_size) {
            Err(e) => Err(e),
            Ok(ih) => Ok(
                sat_sub_wide(
                    ih,
                    crate::nums::mul_wide((self.padding.top as u128) + (self.padding.bottom as u128), unit_size as u128),
                ),
            ),
        }
    }
}

/// The resolved outer width, or `DoubleSameSized` if both axes are `Same`.
pub open spec fn spec_width(k: Skel, w: u32, u: u32) -> Result<u32, LayoutError> {
    match spec_resolve(eff_h(k), w, u) {
        Some(v) => Ok(v),
        None => Err(LayoutError::DoubleSameSized),
    }
}

/// The resolved inner width: outer minus horizontal margins, clamped.
pub open spec fn spec_inner_width(k: Skel, w: u32, u: u32) -> Result<u32, LayoutError> {
    match spec_width(k, w, u) {
        Ok(ow) => Ok(sat32(ow - margin_w(k) * u)),
        Err(e) => Err(e),
    }
}

/// The resolved content width: inner minus horizontal padding, clamped.
pub open spec fn spec_content_width(k: Skel, w: u32, u: u32) -> Result<u32, LayoutError> {
    match spec_inner_width(k, w, u) {
        Ok(iw) => Ok(sat32(iw - padding_w(k) * u)),
        Err(e) => Err(e),
    }
}

/// The resolved outer height, or `DoubleSameSized` if both axes are `Same`.
pub open spec fn spec_height(k: Skel, h: u32, u: u32) -> Result<u32, LayoutError> {
    match spec_resolve(eff_v(k), h, u) {
        Some(v) => Ok(v),
        None => Err(LayoutError::DoubleSameSized),
    }
}

/// The resolved inner height: outer minus vertical margins, clamped.
pub open spec fn spec_inner_height(k: Skel, h: u32, u: u32) -> Result<u32, LayoutError> {
    match spec_height(k, h, u) {
        Ok(oh) => Ok(sat32(oh - margin_h(k) * u)),
        Err(e) => Err(e),
    }
}

/// The resolved content height: inner minus vertical padding, clamped.
pub open spec fn spec_content_height(k: Skel, h: u32, u: u32) -> Result<u32, LayoutError> {
    match spec_inner_height(k, h, u) {
        Ok(ih) => Ok(sat32(ih - padding_h(k) * u)),
        Err(e) => Err(e),
    }
}

} // verus!
