//! The box model: margin/padding/border sides, computed box layers, and the
//! measuring frame handed down the tree.

use vstd::prelude::*;

verus! {

/// Four per-side quantities, each a multiple of the base unit.
#[derive(Clone, Copy, PartialEq, Eq, Structural, Debug)]
pub struct Sides {
    pub left: u32,
    pub right: u32,
    pub top: u32,
    pub bottom: u32,
}

impl Sides {
    /// All four sides zero.
    pub fn zero() -> (r: Sides)
        ensures
            r == (Sides { left: 0u32, right: 0u32, top: 0u32, bottom: 0u32 }),
    {
        Sides { left: 0, right: 0, top: 0, bottom: 0 }
    }

    /// The same quantity on all four sides.
    pub fn uniform(v: u32) -> (r: Sides)
        ensures
            r == (Sides { left: v, right: v, top: v, bottom: v }),
    {
        Sides { left: v, right: v, top: v, bottom: v }
    }

    /// One quantity for left and right, another for top and bottom.
    pub fn per_axis(x: u32, y: u32) -> (r: Sides)
        ensures
            r == (Sides { left: x, right: x, top: y, bottom: y }),
    {
        Sides { left: x, right: x, top: y, bottom: y }
    }
}

/// The concrete boxes computed for one node: concentric dimension layers and
/// their absolute origins, recomputed on every `calculate` call.
#[derive(Clone, Copy, Debug)]
pub struct ComputedLayout {
    /// The full allocated box, margin included.
    pub outer_dim: (u32, u32),
    pub outer_pos: (u32, u32),
    /// `outer` shrunk by the margins.
    pub inner_dim: (u32, u32),
    pub inner_pos: (u32, u32),
    /// `inner` shrunk by the padding.
    pub content_dim: (u32, u32),
    pub content_pos: (u32, u32),
    /// The aggregate extent consumed by the children: their outer extents
    /// summed along the node's axis and maximized across it.
    pub core_dim: (u32, u32),
    pub core_pos: (u32, u32),
}

impl ComputedLayout {
    /// All boxes zero, the state of a node before any layout pass.
    pub fn new() -> (r: ComputedLayout)
        ensures
            r == spec_zero_computed(),
    {
        ComputedLayout {
            outer_dim: (0, 0),
            outer_pos: (0, 0),
            inner_dim: (0, 0),
            inner_pos: (0, 0),
            content_dim: (0, 0),
            content_pos: (0, 0),
            core_dim: (0, 0),
            core_pos: (0, 0),
        }
    }
}

/// The all-zero computed box.
pub open spec fn spec_zero_computed() -> ComputedLayout {
    ComputedLayout {
        outer_dim: (0u32, 0u32),
        outer_pos: (0u32, 0u32),
        inner_dim: (0u32, 0u32),
        inner_pos: (0u32, 0u32),
        content_dim: (0u32, 0u32),
        content_pos: (0u32, 0u32),
        core_dim: (0u32, 0u32),
        core_pos: (0u32, 0u32),
    }
}

/// The frame a pass hands down the tree: an available extent, an origin and
/// the base unit size.
#[derive(Clone, Copy, Debug)]
pub struct LayoutInfo {
    pub width: u32,
    pub height: u32,
    pub x: u32,
    pub y: u32,
    pub unit_size: u32,
}

impl LayoutInfo {
    /// The same frame with a smaller available extent.
    pub fn shrink(&self, width: u32, height: u32) -> (r: Self)
        ensures
            r == (LayoutInfo { width, height, x: self.x, y: self.y, unit_size: self.unit_size }),
    {
        LayoutInfo { width, height, x: self.x, y: self.y, unit_size: self.unit_size }
    }

    /// A frame moved to a new origin with a new extent.
    pub fn shrink_frame(&self, x: u32, y: u32, width: u32, height: u32) -> (r: Self)
        ensures
            r == (LayoutInfo { width, height, x, y, unit_size: self.unit_size }),
    {
        LayoutInfo { width, height, x, y, unit_size: self.unit_size }
    }
}

/// The dimension layers the measure pass assigns to one node.
pub ghost struct Dims {
    pub outer: (u32, u32),
    pub inner: (u32, u32),
    pub content: (u32, u32),
    pub core: (u32, u32),
}

/// The origins the position pass assigns to one node.
pub ghost struct Poss {
    pub outer: (u32, u32),
    pub inner: (u32, u32),
    pub content: (u32, u32),
}

/// The dimension layers held in a computed box.
pub open spec fn dims_of_computed(c: ComputedLayout) -> Dims {
    Dims { outer: c.outer_dim, inner: c.inner_dim, content: c.content_dim, core: c.core_dim }
}

/// A computed box with its dimension layers replaced and its origins kept.
pub open spec fn computed_with_dims(c: ComputedLayout, d: Dims) -> ComputedLayout {
    ComputedLayout {
        outer_dim: d.outer,
        inner_dim: d.inner,
        content_dim: d.content,
        core_dim: d.core,
        ..c
    }
}

/// A computed box with its origins replaced and its dimension layers kept.
pub open spec fn computed_with_poss(c: ComputedLayout, p: Poss) -> ComputedLayout {
    ComputedLayout { outer_pos: p.outer, inner_pos: p.inner, content_pos: p.content, ..c }
}

} // verus!
