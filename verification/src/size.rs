//! Sizing modes, axes, alignment and the structural layout errors.

use vstd::prelude::*;

use crate::nums::sat32;
use crate::nums::sat_wide;

verus! {

/// Scale of a `Size::Relative` factor: a factor of `RELATIVE_SCALE`
/// thousandths equals the whole parent extent.
pub const RELATIVE_SCALE: u32 = 1000;

/// How a node's extent on one axis is derived.
#[derive(Clone, Copy, PartialEq, Eq, Structural, Debug)]
pub enum Size {
    /// Take up all the remaining space of the parent, if there is any.
    Max,
    /// A fraction of the parent's available extent, in thousandths.
    Relative(u32),
    /// A multiple of the base unit.
    Unit(u32),
    /// Shrink to the aggregate extent of the children.
    Content,
    /// Mirror the resolved value of the other axis of the same node.
    Same,
}

/// The direction along which a node distributes its children.
#[derive(Clone, Copy, PartialEq, Eq, Structural, Debug)]
pub enum Axis {
    Horizontal,
    Vertical,
}

/// How children are placed inside the content box on one direction.
#[derive(Clone, Copy, PartialEq, Eq, Structural, Debug)]
pub enum Alignment {
    Start,
    End,
    Center,
    Even,
}

/// Structural configuration errors discovered before any box is computed.
#[derive(Clone, Copy, PartialEq, Eq, Structural, Debug)]
pub enum LayoutError {
    /// A node's axis has more than one child requesting `Max` sizing.
    MultipleMaxChildren,
    /// A node specifies `Same` sizing on both axes.
    DoubleSameSized,
}

/// The component of an extent pair along the given axis.
pub open spec fn main_of(p: (u32, u32), axis: Axis) -> u32 {
    match axis {
        Axis::Horizontal => p.0,
        Axis::Vertical => p.1,
    }
}

/// The component of an extent pair across the given axis.
pub open spec fn cross_of(p: (u32, u32), axis: Axis) -> u32 {
    match axis {
        Axis::Horizontal => p.1,
        Axis::Vertical => p.0,
    }
}

/// An extent pair assembled from its main and cross components.
pub open spec fn pair_mc(main: u32, cross: u32, axis: Axis) -> (u32, u32) {
    match axis {
        Axis::Horizontal => (main, cross),
        Axis::Vertical => (cross, main),
    }
}

/// The effective mode of an axis: `Same` delegates to the other axis.
pub open spec fn eff(own: Size, other: Size) -> Size {
    if own is Same {
        other
    } else {
        own
    }
}

/// What a sizing mode resolves to against an available extent, or `None`
/// for an unresolvable `Same` (both axes `Same`).
pub open spec fn spec_resolve(m: Size, avail: u32, unit: u32) -> Option<u32> {
    match m {
        Size::Max => Some(avail),
        Size::Relative(f) => Some(sat32((f * avail) / (RELATIVE_SCALE as int))),
        Size::Unit(f) => Some(sat32(f * unit)),
        Size::Content => Some(avail),
        Size::Same => None,
    }
}

/// Total variant of `spec_resolve`; the `Same` fallback is never reached on
/// a validated tree.
pub open spec fn resolve_or(m: Size, avail: u32, unit: u32) -> u32 {
    match spec_resolve(m, avail, unit) {
        Some(v) => v,
        None => avail,
    }
}

/// Resolve an effective sizing mode against an available extent.
pub fn resolve_axis(m: Size, avail: u32, unit: u32) -> (r: u32)
    ensures
        r == resolve_or(m, avail, unit),
{
    match m {
        Size::Max => avail,
        Size::Relative(f) => sat_wide(
            crate::nums::mul_wide(f as u128, avail as u128) / (RELATIVE_SCALE as u128),
        ),
        Size::Unit(f) => sat_wide(crate::nums::mul_wide(f as u128, unit as u128)),
        Size::Content => avail,
        Size::Same => avail,
    }
}

} // verus!
