//! The layout engine's acceptance tests: sizing, alignment and nesting
//! scenarios checked against exact expected boxes.

use redwood::node::Layout;
use redwood::size::Alignment;
use redwood::size::Size;
use redwood::tree::LayoutTree;

fn leaf(width: u32, height: u32) -> Layout {
    Layout::new().with_width(Size::Unit(width)).with_height(Size::Unit(height))
}

#[test]
fn test_horizontal_basic() {
    let mut tree = LayoutTree::new();
    let a = tree.push(leaf(10, 5)).unwrap();
    let b = tree.push(leaf(20, 10)).unwrap();
    let c = tree.push(leaf(30, 15)).unwrap();
    let root = tree.push(Layout::new().with_horizontal(vec![a, b, c])).unwrap();

    tree.calculate(1000, 1000, 10).unwrap();

    assert_eq!(tree.node(root).computed.outer_dim.0, 600); // 10*10 + 20*10 + 30*10
    assert_eq!(tree.node(root).computed.outer_dim.1, 150); // max height 15*10

    // Check child positions
    assert_eq!(tree.node(a).computed.outer_pos.0, 0);
    assert_eq!(tree.node(b).computed.outer_pos.0, 100);
    assert_eq!(tree.node(c).computed.outer_pos.0, 300);
}

#[test]
fn test_vertical_basic() {
    let mut tree = LayoutTree::new();
    let a = tree.push(leaf(10, 5)).unwrap();
    let b = tree.push(leaf(20, 10)).unwrap();
    let c = tree.push(leaf(15, 30)).unwrap();
    let root = tree.push(Layout::new().with_vertical(vec![a, b, c])).unwrap();

    tree.calculate(1000, 1000, 10).unwrap();

    assert_eq!(tree.node(root).computed.outer_dim.1, 450); // 5*10 + 10*10 + 30*10
    assert_eq!(tree.node(root).computed.outer_dim.0, 200); // max width 20*10
}

#[test]
fn test_max_sized_child() {
    let mut tree = LayoutTree::new();
    let a = tree.push(leaf(10, 5)).unwrap();
    let b = tree
        .push(Layout::new().with_width(Size::Max).with_height(Size::Unit(10)))
        .unwrap();
    let c = tree.push(leaf(30, 15)).unwrap();
    tree.push(Layout::new().with_horizontal(vec![a, b, c])).unwrap();

    tree.calculate(1000, 100, 10).unwrap();

    // Max-sized child should take remaining space (1000 - 100 - 300 = 600)
    assert_eq!(tree.node(b).computed.outer_dim.0, 600);
}

#[test]
fn test_nested_layouts() {
    let mut tree = LayoutTree::new();
    let ga = tree.push(leaf(10, 5)).unwrap();
    let gb = tree.push(leaf(20, 5)).unwrap();
    let inner = tree
        .push(Layout::new().with_height(Size::Unit(20)).with_horizontal(vec![ga, gb]))
        .unwrap();
    let other = tree.push(leaf(50, 30)).unwrap();
    let root = tree
        .push(
            Layout::new()
                .with_width(Size::Unit(100))
                .with_height(Size::Unit(100))
                .with_vertical(vec![inner, other]),
        )
        .unwrap();

    tree.calculate(2000, 2000, 10).unwrap();

    assert_eq!(tree.node(root).computed.outer_dim.0, 1000); // 100*10
    assert_eq!(tree.node(root).computed.outer_dim.1, 1000); // 100*10

    // First child should be a horizontal layout with two elements
    assert_eq!(tree.node(inner).computed.outer_dim.1, 200); // 20*10

    // And it should have two children
    assert_eq!(tree.node(inner).children.len(), 2);
    assert_eq!(tree.node(ga).computed.outer_dim.0, 100); // 10*10
    assert_eq!(tree.node(gb).computed.outer_dim.0, 200); // 20*10
}

#[test]
fn test_alignment_center() {
    let mut tree = LayoutTree::new();
    let child = tree.push(leaf(10, 10)).unwrap();
    let mut root = Layout::new()
        .with_width(Size::Max)
        .with_height(Size::Max)
        .with_horizontal(vec![child]);
    root.halign = Alignment::Center;
    root.valign = Alignment::Center;
    tree.push(root).unwrap();

    tree.calculate(1000, 1000, 10).unwrap();

    // Child should be centered
    assert_eq!(tree.node(child).computed.outer_pos.0, 450); // (1000 - 100) / 2
    assert_eq!(tree.node(child).computed.outer_pos.1, 450); // (1000 - 100) / 2
}

#[test]
fn test_content_sizing() {
    let mut tree = LayoutTree::new();
    let a = tree.push(leaf(10, 20)).unwrap();
    let b = tree.push(leaf(30, 10)).unwrap();
    let root = tree
        .push(
            Layout::new()
                .with_width(Size::Content)
                .with_height(Size::Content)
                .with_horizontal(vec![a, b]),
        )
        .unwrap();

    tree.calculate(1000, 1000, 10).unwrap();

    assert_eq!(tree.node(root).computed.outer_dim.0, 400); // 10*10 + 30*10
    assert_eq!(tree.node(root).computed.outer_dim.1, 200); // max(20*10, 10*10)
}

#[test]
fn test_relative_sizing() {
    let mut tree = LayoutTree::new();
    let a = tree
        .push(Layout::new().with_width(Size::Relative(300)).with_height(Size::Relative(500)))
        .unwrap();
    let b = tree
        .push(Layout::new().with_width(Size::Relative(700)).with_height(Size::Relative(800)))
        .unwrap();
    tree.push(
        Layout::new()
            .with_width(Size::Unit(100))
            .with_height(Size::Unit(100))
            .with_horizontal(vec![a, b]),
    )
    .unwrap();

    tree.calculate(1000, 1000, 10).unwrap();

    assert_eq!(tree.node(a).computed.outer_dim.0, 300); // 30% of 1000
    assert_eq!(tree.node(a).computed.outer_dim.1, 500); // 50% of 1000
    assert_eq!(tree.node(b).computed.outer_dim.0, 700); // 70% of 1000
    assert_eq!(tree.node(b).computed.outer_dim.1, 800); // 80% of 1000
}

#[test]
fn test_same_size() {
    let mut tree = LayoutTree::new();
    let child = tree
        .push(Layout::new().with_width(Size::Same).with_height(Size::Unit(30)))
        .unwrap();
    tree.push(
        Layout::new()
            .with_width(Size::Unit(50))
            .with_height(Size::Unit(100))
            .with_horizontal(vec![child]),
    )
    .unwrap();

    tree.calculate(1000, 1000, 10).unwrap();

    // Width should match height (30*10 = 300)
    assert_eq!(tree.node(child).computed.outer_dim.0, 300);
    assert_eq!(tree.node(child).computed.outer_dim.1, 300);
}

#[test]
fn test_empty_layout() {
    let mut tree = LayoutTree::new();
    let root = tree
        .push(Layout::new().with_width(Size::Unit(50)).with_height(Size::Unit(50)))
        .unwrap();

    tree.calculate(1000, 1000, 10).unwrap();

    assert_eq!(tree.node(root).computed.outer_dim.0, 500);
    assert_eq!(tree.node(root).computed.outer_dim.1, 500);
}
