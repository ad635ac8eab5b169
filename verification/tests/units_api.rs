//! Direct checks of the sizing resolvers, the measuring frame and the draw
//! primitives.

use redwood::boxes::LayoutInfo;
use redwood::node::Layout;
use redwood::objects::Color;
use redwood::objects::Quad2D;
use redwood::size::LayoutError;
use redwood::size::Size;

#[test]
fn shrink_keeps_origin_and_unit() {
    let info = LayoutInfo { width: 800, height: 600, x: 7, y: 9, unit_size: 10 };
    let s = info.shrink(400, 300);
    assert_eq!(s.width, 400);
    assert_eq!(s.height, 300);
    assert_eq!(s.x, 7);
    assert_eq!(s.y, 9);
    assert_eq!(s.unit_size, 10);
}

#[test]
fn shrink_frame_moves_origin() {
    let info = LayoutInfo { width: 800, height: 600, x: 7, y: 9, unit_size: 10 };
    let s = info.shrink_frame(100, 200, 50, 60);
    assert_eq!(s.x, 100);
    assert_eq!(s.y, 200);
    assert_eq!(s.width, 50);
    assert_eq!(s.height, 60);
    assert_eq!(s.unit_size, 10);
}

#[test]
fn width_resolvers_subtract_margins_then_padding() {
    let n = Layout::new()
        .with_width(Size::Unit(50))
        .with_height(Size::Unit(50))
        .with_margin(1)
        .with_padding(2);
    assert_eq!(n.width(1000, 10), Ok(500));
    assert_eq!(n.inner_width(1000, 10), Ok(480));
    assert_eq!(n.content_width(1000, 10), Ok(440));
    assert_eq!(n.height(1000, 10), Ok(500));
    assert_eq!(n.inner_height(1000, 10), Ok(480));
    assert_eq!(n.content_height(1000, 10), Ok(440));
}

#[test]
fn width_on_double_same_is_an_error() {
    let n = Layout::new().with_width(Size::Same).with_height(Size::Same);
    assert_eq!(n.width(1000, 10), Err(LayoutError::DoubleSameSized));
    assert_eq!(n.height(1000, 10), Err(LayoutError::DoubleSameSized));
    assert_eq!(n.inner_width(1000, 10), Err(LayoutError::DoubleSameSized));
    assert_eq!(n.content_height(1000, 10), Err(LayoutError::DoubleSameSized));
}

#[test]
fn same_mirrors_the_other_axis_mode() {
    let n = Layout::new().with_width(Size::Same).with_height(Size::Unit(30));
    assert_eq!(n.horizontal(), Size::Unit(30));
    assert_eq!(n.vertical(), Size::Unit(30));
    assert_eq!(n.width(1000, 10), Ok(300));
}

#[test]
fn relative_resolves_in_thousandths() {
    let n = Layout::new().with_width(Size::Relative(250)).with_height(Size::Max);
    assert_eq!(n.width(1000, 10), Ok(250));
    assert_eq!(n.width(999, 10), Ok(249)); // 999 * 250 / 1000, truncated
    assert_eq!(n.height(640, 10), Ok(640));
}

#[test]
fn margins_clamp_at_zero() {
    let n = Layout::new()
        .with_width(Size::Unit(1))
        .with_height(Size::Unit(1))
        .with_margin_axis(100, 0);
    assert_eq!(n.inner_width(1000, 10), Ok(0)); // 10 - 2000 clamps
    assert_eq!(n.inner_height(1000, 10), Ok(10));
}

#[test]
fn per_side_setters_take_effect() {
    let n = Layout::new().with_margin_all(1, 2, 3, 4).with_padding_axis(5, 6);
    assert_eq!(n.margin.left, 1);
    assert_eq!(n.margin.right, 2);
    assert_eq!(n.margin.top, 3);
    assert_eq!(n.margin.bottom, 4);
    assert_eq!(n.padding.left, 5);
    assert_eq!(n.padding.right, 5);
    assert_eq!(n.padding.top, 6);
    assert_eq!(n.padding.bottom, 6);
}

#[test]
fn quad_carries_its_fields() {
    let q = Quad2D::new(1, 2, 30, 40, Color { r: 9, g: 8, b: 7, a: 6 });
    assert_eq!(q.x, 1);
    assert_eq!(q.y, 2);
    assert_eq!(q.width, 30);
    assert_eq!(q.height, 40);
    assert_eq!(q.color.r, 9);
    assert_eq!(q.color.a, 6);
}
