//! The layout tree: an arena of nodes whose children point at earlier slots,
//! so every subtree is finite and cycles are impossible by construction.

use vstd::prelude::*;

use crate::boxes::Dims;
use crate::boxes::Poss;
use crate::boxes::computed_with_dims;
use crate::boxes::computed_with_poss;
use crate::boxes::dims_of_computed;
use crate::node::Layout;
use crate::node::Skel;
use crate::node::skel_of;

verus! {

/// An arena-held tree of layout nodes. The node pushed last is the root;
/// children are indices of earlier nodes.
pub struct LayoutTree {
    pub(crate) nodes: Vec<Layout>,
}

impl View for LayoutTree {
    type V = Seq<Layout>;

    closed spec fn view(&self) -> Seq<Layout> {
        self.nodes@
    }
}

/// The view of a tree is the sequence of its arena slots.
pub(crate) broadcast proof fn lemma_tree_view(t: &LayoutTree)
    ensures
        #[trigger] t@ == t.nodes@,
{
}

/// The structural views of all nodes.
pub open spec fn skels(s: Seq<Layout>) -> Seq<Skel> {
    s.map_values(|n: Layout| skel_of(n))
}

/// The measured dimension layers of all nodes.
pub open spec fn dims_of(s: Seq<Layout>) -> Seq<Dims> {
    s.map_values(|n: Layout| dims_of_computed(n.computed))
}

/// Well-formedness of a tree's structure: every child index points at an
/// earlier slot, and no node has more children than an extent can count.
pub open spec fn tree_wf(t: Seq<Skel>) -> bool {
    forall|i: int, j: int|
        0 <= i < t.len() && 0 <= j < t[i].children.len() ==> 0 <= #[trigger] t[i].children[j] < i
            && t[i].children.len() <= u32::MAX
}

/// A node with its dimension layers replaced and everything else kept.
pub open spec fn with_dims(n: Layout, d: Dims) -> Layout {
    Layout { computed: computed_with_dims(n.computed, d), ..n }
}

/// A node with its origins replaced and everything else kept.
pub open spec fn with_poss(n: Layout, p: Poss) -> Layout {
    Layout { computed: computed_with_poss(n.computed, p), ..n }
}

/// The tree after the measure pass writes the dimension layers `m` assigns.
pub open spec fn apply_dims(s: Seq<Layout>, m: Map<int, Dims>) -> Seq<Layout> {
    Seq::new(
        s.len(),
        |j: int|
            if m.contains_key(j) {
                with_dims(s[j], m[j])
            } else {
                s[j]
            },
    )
}

/// The tree after the position pass writes the origins `p` assigns.
pub open spec fn apply_poss(s: Seq<Layout>, p: Map<int, Poss>) -> Seq<Layout> {
    Seq::new(
        s.len(),
        |j: int|
            if p.contains_key(j) {
                with_poss(s[j], p[j])
            } else {
                s[j]
            },
    )
}

/// Applying two write sets one after the other applies their union, the
/// later write winning.
pub proof fn lemma_apply_dims_compose(s: Seq<Layout>, m1: Map<int, Dims>, m2: Map<int, Dims>)
    ensures
        apply_dims(apply_dims(s, m1), m2) == apply_dims(s, m1.union_prefer_right(m2)),
{
    assert(apply_dims(apply_dims(s, m1), m2) =~= apply_dims(s, m1.union_prefer_right(m2)));
}

/// The measure pass only writes dimension layers: the structure is kept.
pub proof fn lemma_skels_apply_dims(s: Seq<Layout>, m: Map<int, Dims>)
    ensures
        skels(apply_dims(s, m)) == skels(s),
{
    assert(skels(apply_dims(s, m)) =~= skels(s));
}

/// Writing one more node's dimensions updates that one slot.
pub proof fn lemma_apply_dims_insert(s: Seq<Layout>, m: Map<int, Dims>, idx: int, d: Dims)
    requires
        0 <= idx < s.len(),
    ensures
        apply_dims(s, m.insert(idx, d)) == apply_dims(s, m).update(idx, with_dims(s[idx], d)),
{
    assert(apply_dims(s, m.insert(idx, d)) =~= apply_dims(s, m).update(
        idx,
        with_dims(s[idx], d),
    ));
}

/// The position pass only writes origins: the structure and the measured
/// dimension layers are kept.
pub proof fn lemma_apply_poss_keeps(s: Seq<Layout>, p: Map<int, Poss>)
    ensures
        skels(apply_poss(s, p)) == skels(s),
        dims_of(apply_poss(s, p)) == dims_of(s),
{
    assert(skels(apply_poss(s, p)) =~= skels(s));
    assert(dims_of(apply_poss(s, p)) =~= dims_of(s));
}

/// An empty origin write set leaves the tree as it is.
pub proof fn lemma_apply_poss_empty(s: Seq<Layout>)
    ensures
        apply_poss(s, Map::empty()) == s,
{
    assert(apply_poss(s, Map::empty()) =~= s);
}

/// Applying two origin write sets one after the other applies their union.
pub proof fn lemma_apply_poss_compose(s: Seq<Layout>, p1: Map<int, Poss>, p2: Map<int, Poss>)
    ensures
        apply_poss(apply_poss(s, p1), p2) == apply_poss(s, p1.union_prefer_right(p2)),
{
    assert(apply_poss(apply_poss(s, p1), p2) =~= apply_poss(s, p1.union_prefer_right(p2)));
}

/// Writing one more node's origins updates that one slot.
pub proof fn lemma_apply_poss_insert(s: Seq<Layout>, p: Map<int, Poss>, idx: int, q: Poss)
    requires
        0 <= idx < s.len(),
    ensures
        apply_poss(s, p.insert(idx, q)) == apply_poss(s, p).update(idx, with_poss(s[idx], q)),
{
    assert(apply_poss(s, p.insert(idx, q)) =~= apply_poss(s, p).update(
        idx,
        with_poss(s[idx], q),
    ));
}

/// Whether a node may be pushed onto a tree of `len` nodes: every child
/// index points at an existing slot and the children fit in an extent.
pub open spec fn children_ok(n: Layout, len: int) -> bool {
    &&& n.children@.len() <= u32::MAX
    &&& forall|j: int| 0 <= j < n.children@.len() ==> (#[trigger] n.children@[j] as int) < len
}

impl LayoutTree {
    /// Structural well-formedness of this tree.
    pub open spec fn wf(&self) -> bool {
        tree_wf(skels(self@))
    }

    /// An empty tree.
    pub fn new() -> (r: LayoutTree)
        ensures
            r@ =~= Seq::<Layout>::empty(),
            r.wf(),
    {
        let t = LayoutTree { nodes: Vec::new() };
        proof {
            assert(skels(t@).len() == 0);
        }
        t
    }

    /// The number of nodes.
    pub fn len(&self) -> (r: usize)
        ensures
            r == self@.len(),
    {
        self.nodes.len()
    }

    /// A node by its arena index.
    pub fn node(&self, idx: usize) -> (r: &Layout)
        requires
            idx < self@.len(),
        ensures
            *r == self@[idx as int],
    {
        &self.nodes[idx]
    }

    /// The leaf-content pre-pass: a content-measurement collaborator (a
    /// text shaper, an image decoder) supplies a node's intrinsic extent in
    /// whole units, and the engine pins the node's sizing to `Unit` ahead
    /// of the measure pass.
    pub fn set_intrinsic(&mut self, idx: usize, width_units: u32, height_units: u32)
        requires
            old(self).wf(),
            idx < old(self)@.len(),
        ensures
            final(self).wf(),
            final(self)@ == old(self)@.update(
                idx as int,
                Layout {
                    hsize: crate::size::Size::Unit(width_units),
                    vsize: crate::size::Size::Unit(height_units),
                    ..old(self)@[idx as int]
                },
            ),
    {
        self.nodes[idx].hsize = crate::size::Size::Unit(width_units);
        self.nodes[idx].vsize = crate::size::Size::Unit(height_units);
        proof {
            let t = skels(self@);
            let t0 = skels(old(self)@);
            assert forall|i: int, jj: int|
                0 <= i < t.len() && 0 <= jj < t[i].children.len() implies 0 <= #[trigger] t[i]
                .children[jj] < i && t[i].children.len() <= u32::MAX by {
                assert(t[i].children == t0[i].children);
            }
            assert(self@ =~= old(self)@.update(
                idx as int,
                Layout {
                    hsize: crate::size::Size::Unit(width_units),
                    vsize: crate::size::Size::Unit(height_units),
                    ..old(self)@[idx as int]
                },
            ));
        }
    }

    /// Add a node. Succeeds with the node's index if every child index
    /// points at a node already present and the children fit in an extent;
    /// otherwise the tree is left unchanged.
    pub fn push(&mut self, node: Layout) -> (r: Option<usize>)
        requires
            old(self).wf(),
        ensures
            final(self).wf(),
            match r {
                Some(idx) => {
                    &&& idx == old(self)@.len()
                    &&& final(self)@ == old(self)@.push(node)
                    &&& children_ok(node, old(self)@.len() as int)
                },
                None => {
                    &&& final(self)@ == old(self)@
                    &&& !children_ok(node, old(self)@.len() as int)
                },
            },
    {
        let n = self.nodes.len();
        if node.children.len() > u32::MAX as usize {
            return None;
        }
        let mut j: usize = 0;
        while j < node.children.len()
            invariant
                j <= node.children@.len(),
                n == self@.len(),
                self@ == old(self)@,
                self.wf(),
                forall|i: int| 0 <= i < j ==> (#[trigger] node.children@[i] as int) < n,
            decreases node.children@.len() - j,
        {
            if node.children[j] >= n {
                return None;
            }
            j += 1;
        }
        self.nodes.push(node);
        proof {
            let t = skels(self@);
            let t0 = skels(old(self)@);
            assert forall|i: int, jj: int|
                0 <= i < t.len() && 0 <= jj < t[i].children.len() implies 0 <= #[trigger] t[i]
                .children[jj] < i && t[i].children.len() <= u32::MAX by {
                if i < t0.len() {
                    assert(t[i] == t0[i]);
                } else {
                    assert(t[i] == skel_of(node));
                    assert(t[i].children[jj] == node.children@[jj] as int);
                }
            }
        }
        Some(n)
    }
}

} // verus!
