//! Scenario and property checks: error cases, the box-model chain,
//! alignment distribution, saturation edges and the traversal order.

use redwood::node::Layout;
use redwood::size::Alignment;
use redwood::size::LayoutError;
use redwood::size::Size;
use redwood::tree::LayoutTree;

fn leaf(width: u32, height: u32) -> Layout {
    Layout::new().with_width(Size::Unit(width)).with_height(Size::Unit(height))
}

#[test]
fn max_child_takes_remainder_scenario() {
    // Budget width 1000, two fixed children of outer widths 100 and 300,
    // one Max child: the Max child gets 600.
    let mut tree = LayoutTree::new();
    let a = tree.push(leaf(10, 5)).unwrap();
    let b = tree.push(leaf(30, 5)).unwrap();
    let m = tree
        .push(Layout::new().with_width(Size::Max).with_height(Size::Unit(5)))
        .unwrap();
    tree.push(
        Layout::new()
            .with_width(Size::Max)
            .with_height(Size::Max)
            .with_horizontal(vec![a, b, m]),
    )
    .unwrap();
    tree.calculate(1000, 1000, 10).unwrap();
    assert_eq!(tree.node(m).computed.outer_dim.0, 600);
}

#[test]
fn second_max_child_fails_unpositioned() {
    // The same scenario with a second Max child fails with
    // MultipleMaxChildren and no box is produced.
    let mut tree = LayoutTree::new();
    let a = tree.push(leaf(10, 5)).unwrap();
    let b = tree.push(leaf(30, 5)).unwrap();
    let m1 = tree
        .push(Layout::new().with_width(Size::Max).with_height(Size::Unit(5)))
        .unwrap();
    let m2 = tree
        .push(Layout::new().with_width(Size::Max).with_height(Size::Unit(5)))
        .unwrap();
    let root = tree
        .push(
            Layout::new()
                .with_width(Size::Max)
                .with_height(Size::Max)
                .with_horizontal(vec![a, b, m1, m2]),
        )
        .unwrap();
    let r = tree.calculate(1000, 1000, 10);
    assert_eq!(r, Err(LayoutError::MultipleMaxChildren));
    // The whole tree is left untouched: every box is still zero.
    for idx in [a, b, m1, m2, root] {
        assert_eq!(tree.node(idx).computed.outer_dim, (0, 0));
        assert_eq!(tree.node(idx).computed.outer_pos, (0, 0));
    }
}

#[test]
fn double_same_sized_root_fails() {
    let mut tree = LayoutTree::new();
    tree.push(Layout::new().with_width(Size::Same).with_height(Size::Same)).unwrap();
    let r = tree.calculate(1000, 1000, 10);
    assert_eq!(r, Err(LayoutError::DoubleSameSized));
}

#[test]
fn double_same_sized_child_fails() {
    let mut tree = LayoutTree::new();
    let bad = tree
        .push(Layout::new().with_width(Size::Same).with_height(Size::Same))
        .unwrap();
    let root = tree.push(leaf(10, 10).with_horizontal(vec![bad])).unwrap();
    let r = tree.calculate(1000, 1000, 10);
    assert_eq!(r, Err(LayoutError::DoubleSameSized));
    assert_eq!(tree.node(root).computed.outer_dim, (0, 0));
}

#[test]
fn calculate_is_idempotent() {
    let mut tree = LayoutTree::new();
    let a = tree.push(leaf(10, 5).with_margin(1)).unwrap();
    let b = tree.push(Layout::new().with_width(Size::Max).with_height(Size::Unit(8))).unwrap();
    let c = tree.push(leaf(7, 9)).unwrap();
    let inner = tree
        .push(
            Layout::new()
                .with_height(Size::Unit(20))
                .with_padding(2)
                .with_horizontal(vec![a, b])
                .with_align(Alignment::Center),
        )
        .unwrap();
    let root = tree
        .push(
            Layout::new()
                .with_width(Size::Content)
                .with_height(Size::Content)
                .with_vertical(vec![inner, c])
                .with_align(Alignment::Even),
        )
        .unwrap();

    tree.calculate(800, 600, 10).unwrap();
    let first: Vec<_> = [a, b, c, inner, root]
        .iter()
        .map(|&i| {
            let cb = &tree.node(i).computed;
            (cb.outer_dim, cb.outer_pos, cb.inner_dim, cb.inner_pos, cb.content_dim, cb.content_pos, cb.core_dim)
        })
        .collect();

    tree.calculate(800, 600, 10).unwrap();
    let second: Vec<_> = [a, b, c, inner, root]
        .iter()
        .map(|&i| {
            let cb = &tree.node(i).computed;
            (cb.outer_dim, cb.outer_pos, cb.inner_dim, cb.inner_pos, cb.content_dim, cb.content_pos, cb.core_dim)
        })
        .collect();

    assert_eq!(first, second);
}

#[test]
fn margin_padding_chain() {
    // Unit(50) x Unit(50) at unit 10, margin 1, padding 2:
    // outer 500, inner 500 - 2*10 = 480, content 480 - 2*20 = 440;
    // origins advance by margin then padding.
    let mut tree = LayoutTree::new();
    let root = tree
        .push(
            Layout::new()
                .with_width(Size::Unit(50))
                .with_height(Size::Unit(50))
                .with_margin(1)
                .with_padding(2),
        )
        .unwrap();
    tree.calculate(1000, 1000, 10).unwrap();
    let cb = &tree.node(root).computed;
    assert_eq!(cb.outer_dim, (500, 500));
    assert_eq!(cb.inner_dim, (480, 480));
    assert_eq!(cb.content_dim, (440, 440));
    assert_eq!(cb.outer_pos, (0, 0));
    assert_eq!(cb.inner_pos, (10, 10));
    assert_eq!(cb.content_pos, (30, 30));
}

#[test]
fn content_parent_shrinks_to_core_plus_margins() {
    // A Content-sized parent with margin 1 and padding 2 around a single
    // Unit(10) child at unit 10: content shrinks to the core 100,
    // inner to 100 + 40, outer to 100 + 40 + 20.
    let mut tree = LayoutTree::new();
    let child = tree.push(leaf(10, 10)).unwrap();
    let root = tree
        .push(
            Layout::new()
                .with_width(Size::Content)
                .with_height(Size::Content)
                .with_margin(1)
                .with_padding(2)
                .with_horizontal(vec![child]),
        )
        .unwrap();
    tree.calculate(1000, 1000, 10).unwrap();
    let cb = &tree.node(root).computed;
    assert_eq!(cb.core_dim, (100, 100));
    assert_eq!(cb.content_dim, (100, 100));
    assert_eq!(cb.inner_dim, (140, 140));
    assert_eq!(cb.outer_dim, (160, 160));
}

#[test]
fn even_alignment_gaps() {
    // Three children of widths 100, 200, 300 in a 1000-wide frame:
    // space 400 over four gaps of 100 each.
    let mut tree = LayoutTree::new();
    let a = tree.push(leaf(10, 5)).unwrap();
    let b = tree.push(leaf(20, 5)).unwrap();
    let c = tree.push(leaf(30, 5)).unwrap();
    tree.push(
        Layout::new()
            .with_width(Size::Max)
            .with_height(Size::Max)
            .with_horizontal(vec![a, b, c])
            .with_align(Alignment::Even),
    )
    .unwrap();
    tree.calculate(1000, 1000, 10).unwrap();
    assert_eq!(tree.node(a).computed.outer_pos.0, 100);
    assert_eq!(tree.node(b).computed.outer_pos.0, 300);
    assert_eq!(tree.node(c).computed.outer_pos.0, 600);
}

#[test]
fn end_alignment_packs_from_trailing_edge() {
    let mut tree = LayoutTree::new();
    let a = tree.push(leaf(10, 5)).unwrap();
    let b = tree.push(leaf(20, 5)).unwrap();
    let mut root = Layout::new()
        .with_width(Size::Max)
        .with_height(Size::Max)
        .with_horizontal(vec![a, b])
        .with_align(Alignment::End);
    root.valign = Alignment::End;
    tree.push(root).unwrap();
    tree.calculate(1000, 1000, 10).unwrap();
    assert_eq!(tree.node(a).computed.outer_pos.0, 900);
    assert_eq!(tree.node(b).computed.outer_pos.0, 700);
    // Cross axis End: trailing edge minus the child's own extent.
    assert_eq!(tree.node(a).computed.outer_pos.1, 950);
    assert_eq!(tree.node(b).computed.outer_pos.1, 950);
}

#[test]
fn relative_factor_truncates() {
    // 333 thousandths of 1000 is 333; one thousandth of 999 truncates to 0.
    let mut tree = LayoutTree::new();
    let a = tree
        .push(Layout::new().with_width(Size::Relative(333)).with_height(Size::Relative(1)))
        .unwrap();
    tree.push(Layout::new().with_width(Size::Max).with_height(Size::Max).with_horizontal(vec![a]))
        .unwrap();
    tree.calculate(1000, 999, 10).unwrap();
    assert_eq!(tree.node(a).computed.outer_dim.0, 333);
    assert_eq!(tree.node(a).computed.outer_dim.1, 0);
}

#[test]
fn exhausted_budget_yields_zero_max_child() {
    // Fixed children larger than the budget: the Max child gets zero
    // width rather than an error.
    let mut tree = LayoutTree::new();
    let a = tree.push(leaf(200, 5)).unwrap();
    let m = tree
        .push(Layout::new().with_width(Size::Max).with_height(Size::Unit(5)))
        .unwrap();
    tree.push(
        Layout::new().with_width(Size::Max).with_height(Size::Max).with_horizontal(vec![a, m]),
    )
    .unwrap();
    tree.calculate(1000, 1000, 10).unwrap();
    assert_eq!(tree.node(a).computed.outer_dim.0, 2000);
    assert_eq!(tree.node(m).computed.outer_dim.0, 0);
}

#[test]
fn oversized_unit_saturates() {
    let mut tree = LayoutTree::new();
    let root = tree
        .push(Layout::new().with_width(Size::Unit(u32::MAX)).with_height(Size::Unit(1)))
        .unwrap();
    tree.calculate(10, 10, 3).unwrap();
    assert_eq!(tree.node(root).computed.outer_dim.0, u32::MAX);
    assert_eq!(tree.node(root).computed.outer_dim.1, 3);
}

#[test]
fn zero_unit_collapses_unit_sizes() {
    let mut tree = LayoutTree::new();
    let root = tree
        .push(Layout::new().with_width(Size::Unit(50)).with_height(Size::Unit(50)))
        .unwrap();
    tree.calculate(1000, 1000, 0).unwrap();
    assert_eq!(tree.node(root).computed.outer_dim, (0, 0));
}

#[test]
fn empty_tree_is_ok() {
    let mut tree = LayoutTree::new();
    assert_eq!(tree.calculate(1000, 1000, 10), Ok(()));
    assert_eq!(tree.len(), 0);
}

#[test]
fn preorder_is_root_first_declaration_order() {
    let mut tree = LayoutTree::new();
    let a = tree.push(leaf(1, 1)).unwrap();
    let c = tree.push(leaf(1, 1)).unwrap();
    let b = tree.push(leaf(2, 2).with_horizontal(vec![c])).unwrap();
    let root = tree.push(Layout::new().with_horizontal(vec![a, b])).unwrap();
    assert_eq!(tree.preorder(), vec![root, a, b, c]);
}

#[test]
fn intrinsic_pre_pass_pins_unit_sizing() {
    // The content-measurement collaborator pre-sizes a leaf; the next
    // calculate call lays it out as a fixed Unit leaf.
    let mut tree = LayoutTree::new();
    let text = tree.push(Layout::new()).unwrap();
    tree.push(Layout::new().with_horizontal(vec![text])).unwrap();
    tree.set_intrinsic(text, 12, 2);
    assert_eq!(tree.node(text).hsize, Size::Unit(12));
    assert_eq!(tree.node(text).vsize, Size::Unit(2));
    tree.calculate(1000, 1000, 10).unwrap();
    assert_eq!(tree.node(text).computed.outer_dim, (120, 20));
}

#[test]
fn push_rejects_unknown_child() {
    let mut tree = LayoutTree::new();
    let bad = Layout::new().with_horizontal(vec![5]);
    assert_eq!(tree.push(bad), None);
    assert_eq!(tree.len(), 0);
}
