//! Binary-space-partition traversal.
//!
//! The node array is walked with an explicit stack, visiting every
//! reachable leaf in strict front-to-back order relative to the query
//! point.  [`traversal`] is the mathematical order; [`BSP::visit_order`]
//! computes exactly it, [`BSP::visit`] walks it with pruning and early
//! exit, and [`lemma_traversal_front_to_back`] is the ordering law: of two
//! visited leaves, the earlier one lies on the query point's side of every
//! partition node that separates them.

use vstd::prelude::*;
use crate::map::{LevelMap, Node, NodeBox, LEAF_FLAG};
use crate::math::Vector2;

verus! {

/// Whether the point lies on the left side of the node's partition line:
/// the 2D cross product of (position - partition) with the partition
/// delta is at most zero.
pub open spec fn spec_on_left(position: Vector2<i16>, node: Node) -> bool {
    (position.x - node.partition.x) * node.change_partition.y - (position.y - node.partition.y)
        * node.change_partition.x <= 0
}

/// The near child: the one whose region holds the query point's side.
pub open spec fn near_child(position: Vector2<i16>, node: Node) -> u16 {
    if spec_on_left(position, node) {
        node.left_child_id
    } else {
        node.right_child_id
    }
}

/// The far child: the other one.
pub open spec fn far_child(position: Vector2<i16>, node: Node) -> u16 {
    if spec_on_left(position, node) {
        node.right_child_id
    } else {
        node.left_child_id
    }
}

/// Leaf order of the subtree rooted at interior node `node_id`: all
/// leaves of the near child first, then all leaves of the far child.
pub open spec fn traversal(m: LevelMap, position: Vector2<i16>, node_id: u16) -> Seq<u16>
    decreases node_id, 1int,
{
    if node_id < m.nodes@.len() && node_id < LEAF_FLAG {
        let node = m.nodes@[node_id as int];
        child_seq(m, position, node_id, near_child(position, node)) + child_seq(
            m,
            position,
            node_id,
            far_child(position, node),
        )
    } else {
        Seq::empty()
    }
}

/// Leaf order of a child reference of the node at `parent`: a single
/// leaf index when the reference is a leaf, or the child subtree's
/// traversal when it names an earlier interior node.
pub open spec fn child_seq(m: LevelMap, position: Vector2<i16>, parent: u16, child: u16) -> Seq<
    u16,
>
    decreases parent, 0int,
{
    if child >= LEAF_FLAG {
        seq![(child - LEAF_FLAG) as u16]
    } else if child < parent {
        traversal(m, position, child)
    } else {
        Seq::empty()
    }
}

/// Leaf order of a stack entry taken on its own: a single leaf index or
/// the named subtree's traversal.
pub open spec fn entry_seq(m: LevelMap, position: Vector2<i16>, id: u16) -> Seq<u16> {
    if id >= LEAF_FLAG {
        seq![(id - LEAF_FLAG) as u16]
    } else {
        traversal(m, position, id)
    }
}

/// Leaf order still owed by a traversal stack: entries pop from the back.
pub open spec fn stack_seq(m: LevelMap, position: Vector2<i16>, stack: Seq<u16>) -> Seq<u16>
    decreases stack.len(),
{
    if stack.len() == 0 {
        Seq::empty()
    } else {
        entry_seq(m, position, stack.last()) + stack_seq(m, position, stack.drop_last())
    }
}

/// Number of stack pops a subtree can still cause, for termination.
pub open spec fn node_weight(m: LevelMap, node_id: u16) -> nat
    decreases node_id, 1int,
{
    if node_id < m.nodes@.len() && node_id < LEAF_FLAG {
        let node = m.nodes@[node_id as int];
        1 + child_weight(m, node_id, node.left_child_id) + child_weight(
            m,
            node_id,
            node.right_child_id,
        )
    } else {
        1
    }
}

/// Pop budget of a child reference.
pub open spec fn child_weight(m: LevelMap, parent: u16, child: u16) -> nat
    decreases parent, 0int,
{
    if child >= LEAF_FLAG {
        1
    } else if child < parent {
        node_weight(m, child)
    } else {
        1
    }
}

/// Pop budget of a whole stack.
pub open spec fn stack_weight(m: LevelMap, stack: Seq<u16>) -> nat
    decreases stack.len(),
{
    if stack.len() == 0 {
        0
    } else {
        node_weight(m, stack.last()) + stack_weight(m, stack.drop_last())
    }
}

/// Popping the top entry of a stack: its owed order is the top entry's
/// order followed by the rest's.
pub proof fn lemma_stack_seq_push(m: LevelMap, position: Vector2<i16>, stack: Seq<u16>, id: u16)
    ensures
        stack_seq(m, position, stack.push(id)) == entry_seq(m, position, id) + stack_seq(
            m,
            position,
            stack,
        ),
        stack_weight(m, stack.push(id)) == node_weight_entry(m, id) + stack_weight(m, stack),
{
    assert(stack.push(id).last() == id);
    assert(stack.push(id).drop_last() =~= stack);
}

/// The empty stack owes nothing.
pub proof fn lemma_stack_seq_empty(m: LevelMap, position: Vector2<i16>, stack: Seq<u16>)
    requires
        stack.len() == 0,
    ensures
        stack_seq(m, position, stack) == Seq::<u16>::empty(),
        stack_weight(m, stack) == 0,
{
}

/// A strictly increasing index map that embeds `a` inside `b`.
pub open spec fn is_embedding(f: Seq<int>, a: Seq<u16>, b: Seq<u16>) -> bool {
    &&& f.len() == a.len()
    &&& forall|i: int| 0 <= i < f.len() ==> 0 <= #[trigger] f[i] < b.len()
    &&& forall|i: int, j: int| 0 <= i < j < f.len() ==> #[trigger] f[i] < #[trigger] f[j]
    &&& forall|i: int| 0 <= i < a.len() ==> a[i] == b[#[trigger] f[i]]
}

/// Whether `a` appears inside `b` in order, possibly with gaps.
pub open spec fn subseq_of(a: Seq<u16>, b: Seq<u16>) -> bool {
    exists|f: Seq<int>| #[trigger] is_embedding(f, a, b)
}

/// Every sequence is a subsequence of itself.
pub proof fn lemma_subseq_refl(a: Seq<u16>)
    ensures
        subseq_of(a, a),
{
    let f = Seq::new(a.len(), |i: int| i);
    assert(is_embedding(f, a, a));
}

/// Cutting a middle run out of a sequence leaves a subsequence.
pub proof fn lemma_subseq_drop_middle(p: Seq<u16>, b: Seq<u16>, c: Seq<u16>)
    ensures
        subseq_of(p + c, p + b + c),
{
    let f = Seq::new(
        p.len() + c.len(),
        |i: int|
            if i < p.len() {
                i
            } else {
                i + b.len()
            },
    );
    assert(is_embedding(f, p + c, p + b + c)) by {
        assert forall|i: int| 0 <= i < (p + c).len() implies (p + c)[i] == (p + b + c)[
            #[trigger] f[i]] by {
            if i < p.len() {
                assert((p + c)[i] == p[i]);
                assert((p + b + c)[i] == p[i]);
            } else {
                assert((p + c)[i] == c[i - p.len()]);
                assert((p + b + c)[i + b.len()] == c[i - p.len()]);
            }
        }
    }
}

/// A subsequence of a subsequence is one of the whole.
pub proof fn lemma_subseq_trans(a: Seq<u16>, b: Seq<u16>, c: Seq<u16>)
    requires
        subseq_of(a, b),
        subseq_of(b, c),
    ensures
        subseq_of(a, c),
{
    let f = choose|f: Seq<int>| is_embedding(f, a, b);
    let g = choose|g: Seq<int>| is_embedding(g, b, c);
    let h = Seq::new(a.len(), |i: int| g[f[i]]);
    assert(is_embedding(h, a, c)) by {
        assert forall|i: int, j: int| 0 <= i < j < h.len() implies #[trigger] h[i] < #[trigger] h[j] by {
            assert(f[i] < f[j]);
            assert(g[f[i]] < g[f[j]]);
        }
        assert forall|i: int| 0 <= i < a.len() implies a[i] == c[#[trigger] h[i]] by {
            assert(a[i] == b[f[i]]);
            assert(b[f[i]] == c[g[f[i]]]);
        }
    }
}

/// The front of a subsequence-with-remainder is itself a subsequence.
pub proof fn lemma_subseq_prefix(a: Seq<u16>, b: Seq<u16>, t: Seq<u16>)
    requires
        subseq_of(a + b, t),
    ensures
        subseq_of(a, t),
{
    let f = choose|f: Seq<int>| is_embedding(f, a + b, t);
    let h = f.take(a.len() as int);
    assert(is_embedding(h, a, t)) by {
        assert forall|i: int| 0 <= i < a.len() implies a[i] == t[#[trigger] h[i]] by {
            assert((a + b)[i] == a[i]);
            assert((a + b)[i] == t[f[i]]);
        }
    }
}

/// Consumers of the front-to-back leaf walk: `leaf` is handed each leaf
/// in order and may stop the walk; `test_node` may prune a whole far
/// subtree by its bounding box.
pub trait BspVisitor: Sized {
    /// The visitor's own well-formedness, carried through the walk.
    spec fn inv(&self) -> bool;

    /// The leaves handed over so far, in order.
    spec fn leaves(&self) -> Seq<u16>;

    /// Takes the next visible leaf; returning false stops the walk.
    fn leaf(&mut self, subsector_id: u16) -> (go_on: bool)
        requires
            old(self).inv(),
        ensures
            final(self).inv(),
            final(self).leaves() == old(self).leaves().push(subsector_id),
    ;

    /// Bounding-box test for a far subtree; returning false skips it.
    fn test_node(&mut self, node_box: &NodeBox) -> (r: bool)
        requires
            old(self).inv(),
        ensures
            final(self).inv(),
            final(self).leaves() == old(self).leaves(),
    ;
}

/// The spatial index: the root node's index and a reusable traversal
/// stack.
pub struct BSP {
    pub root_id: u16,
    pub stack: Vec<u16>,
}

impl BSP {
    /// Builds the index for a map whose node array is not empty; the
    /// root is the last node.
    pub fn new(map: &LevelMap) -> (r: Self)
        requires
            map.nodes@.len() > 0,
            map.nodes@.len() <= LEAF_FLAG,
        ensures
            r.root_id == map.nodes@.len() - 1,
    {
        BSP { root_id: (map.nodes.len() - 1) as u16, stack: Vec::new() }
    }

    /// The partition-side test at one node.
    pub fn is_on_left_size(&self, map: &LevelMap, position: &Vector2<i16>, node_id: u16) -> (r:
        bool)
        requires
            node_id < map.nodes@.len(),
        ensures
            r == spec_on_left(*position, map.nodes@[node_id as int]),
    {
        let node = &map.nodes[node_id as usize];
        let dx: i64 = (position.x as i64) - (node.partition.x as i64);
        let dy: i64 = (position.y as i64) - (node.partition.y as i64);
        let cy: i64 = node.change_partition.y as i64;
        let cx: i64 = node.change_partition.x as i64;
        proof {
            assert(-0x8000_0000 <= dx * cy <= 0x8000_0000 && -0x8000_0000 <= dy * cx
                <= 0x8000_0000) by (nonlinear_arith)
                requires
                    -65536 <= dx <= 65536 && -32768 <= cy <= 32768 && -65536 <= dy <= 65536
                        && -32768 <= cx <= 32768,
            ;
        }
        let cross: i64 = dx * cy - dy * cx;
        cross <= 0
    }

    /// Every leaf reachable from the root, in strict front-to-back order
    /// relative to `position`.
    pub fn visit_order(&mut self, map: &LevelMap, position: &Vector2<i16>) -> (r: Vec<u16>)
        requires
            map.wf(),
            old(self).root_id < map.nodes@.len(),
        ensures
            r@ == traversal(*map, *position, old(self).root_id),
            final(self).root_id == old(self).root_id,
    {
        let ghost root0 = self.root_id;
        let mut out: Vec<u16> = Vec::new();
        self.stack.clear();
        self.stack.push(self.root_id);
        proof {
            lemma_stack_seq_push(*map, *position, Seq::<u16>::empty(), root0);
            lemma_stack_seq_empty(*map, *position, Seq::<u16>::empty());
            assert(Seq::<u16>::empty().push(root0) =~= self.stack@);
            assert(out@ + stack_seq(*map, *position, self.stack@) =~= traversal(
                *map,
                *position,
                root0,
            ));
        }
        while self.stack.len() > 0
            invariant
                map.wf(),
                self.root_id == root0,
                root0 == old(self).root_id,
                root0 < map.nodes@.len(),
                forall|k: int|
                    0 <= k < self.stack@.len() ==> #[trigger] self.stack@[k] >= LEAF_FLAG
                        || self.stack@[k] < map.nodes@.len(),
                out@ + stack_seq(*map, *position, self.stack@) == traversal(
                    *map,
                    *position,
                    root0,
                ),
            decreases stack_weight(*map, self.stack@),
        {
            let ghost prev_stack = self.stack@;
            let node_id = self.stack.pop().unwrap();
            proof {
                assert(prev_stack.last() == node_id);
                assert(self.stack@ =~= prev_stack.drop_last());
                lemma_stack_seq_push(*map, *position, self.stack@, node_id);
                assert(self.stack@.push(node_id) =~= prev_stack);
                assert(stack_seq(*map, *position, prev_stack) == entry_seq(*map, *position, node_id)
                    + stack_seq(*map, *position, self.stack@));
            }
            if node_id >= LEAF_FLAG {
                out.push(node_id - LEAF_FLAG);
                proof {
                    assert(entry_seq(*map, *position, node_id) =~= seq![
                        (node_id - LEAF_FLAG) as u16,
                    ]);
                    assert(out@ + stack_seq(*map, *position, self.stack@) =~= out@.drop_last()
                        + stack_seq(*map, *position, prev_stack));
                }
                continue ;
            }
            let node = &map.nodes[node_id as usize];
            let on_left = self.is_on_left_size(map, position, node_id);
            let (near, far) = if on_left {
                (node.left_child_id, node.right_child_id)
            } else {
                (node.right_child_id, node.left_child_id)
            };
            let ghost mid_stack = self.stack@;
            self.stack.push(far);
            self.stack.push(near);
            proof {
                let m = *map;
                let pos = *position;
                assert(m.nodes@[node_id as int].ids_ok(node_id as int, m));
                assert(entry_seq(m, pos, node_id) == child_seq(m, pos, node_id, near) + child_seq(
                    m,
                    pos,
                    node_id,
                    far,
                ));
                assert(child_seq(m, pos, node_id, near) =~= entry_seq(m, pos, near));
                assert(child_seq(m, pos, node_id, far) =~= entry_seq(m, pos, far));
                lemma_stack_seq_push(m, pos, mid_stack, far);
                lemma_stack_seq_push(m, pos, mid_stack.push(far), near);
                assert(self.stack@ =~= mid_stack.push(far).push(near));
                assert(out@ + stack_seq(m, pos, self.stack@) =~= out@ + stack_seq(
                    m,
                    pos,
                    prev_stack,
                ));
                // The pop budget shrinks by one: an interior entry weighs
                // one more than its two children together.
                assert(node_weight(m, node_id) == 1 + child_weight(m, node_id, near)
                    + child_weight(m, node_id, far));
                assert(child_weight(m, node_id, near) == node_weight_entry(m, near));
                assert(child_weight(m, node_id, far) == node_weight_entry(m, far));
            }
        }
        proof {
            lemma_stack_seq_empty(*map, *position, self.stack@);
            assert(out@ + stack_seq(*map, *position, self.stack@) =~= out@);
        }
        out
    }

    /// Walks the leaves front to back, handing each to the visitor;
    /// `test_node` may prune far subtrees and `leaf` may stop the walk.
    /// The visitor takes leaves only in traversal order.
    pub fn visit<V: BspVisitor>(
        &mut self,
        map: &LevelMap,
        position: &Vector2<i16>,
        visitor: &mut V,
    )
        requires
            map.wf(),
            old(self).root_id < map.nodes@.len(),
            old(visitor).inv(),
        ensures
            final(self).root_id == old(self).root_id,
            final(visitor).inv(),
            // The visitor takes some leaves, in traversal order: what it
            // received extends what it held by a subsequence of the full
            // front-to-back order (pruning and early exit only drop
            // leaves, never reorder them).
            exists|s: Seq<u16>|
                #[trigger] subseq_of(s, traversal(*map, *position, old(self).root_id))
                    && final(visitor).leaves() == old(visitor).leaves() + s,
    {
        let ghost root0 = self.root_id;
        let ghost m = *map;
        let ghost pos = *position;
        let ghost total = traversal(*map, *position, self.root_id);
        let ghost mut claimed: Seq<u16> = Seq::empty();
        self.stack.clear();
        self.stack.push(self.root_id);
        proof {
            lemma_stack_seq_push(m, pos, Seq::<u16>::empty(), root0);
            lemma_stack_seq_empty(m, pos, Seq::<u16>::empty());
            assert(Seq::<u16>::empty().push(root0) =~= self.stack@);
            assert(claimed + stack_seq(m, pos, self.stack@) =~= total);
            lemma_subseq_refl(total);
            assert(visitor.leaves() =~= old(visitor).leaves() + claimed);
        }
        while self.stack.len() > 0
            invariant
                map.wf(),
                m == *map,
                pos == *position,
                self.root_id == root0,
                root0 == old(self).root_id,
                root0 < map.nodes@.len(),
                visitor.inv(),
                total == traversal(m, pos, root0),
                visitor.leaves() == old(visitor).leaves() + claimed,
                subseq_of(claimed + stack_seq(m, pos, self.stack@), total),
                forall|k: int|
                    0 <= k < self.stack@.len() ==> #[trigger] self.stack@[k] >= LEAF_FLAG
                        || self.stack@[k] < map.nodes@.len(),
            decreases stack_weight(*map, self.stack@),
        {
            let ghost prev_stack = self.stack@;
            let node_id = self.stack.pop().unwrap();
            proof {
                assert(self.stack@ =~= prev_stack.drop_last());
                lemma_stack_seq_push(m, pos, self.stack@, node_id);
                assert(self.stack@.push(node_id) =~= prev_stack);
                assert(stack_seq(m, pos, prev_stack) == entry_seq(m, pos, node_id) + stack_seq(
                    m,
                    pos,
                    self.stack@,
                ));
            }
            if node_id >= LEAF_FLAG {
                let ghost leaf_val = (node_id - LEAF_FLAG) as u16;
                proof {
                    assert(entry_seq(m, pos, node_id) =~= seq![leaf_val]);
                    assert((claimed.push(leaf_val)) + stack_seq(m, pos, self.stack@) =~= claimed
                        + stack_seq(m, pos, prev_stack));
                    claimed = claimed.push(leaf_val);
                }
                if !visitor.leaf(node_id - LEAF_FLAG) {
                    self.stack.clear();
                    proof {
                        lemma_subseq_prefix(
                            claimed,
                            stack_seq(m, pos, prev_stack.drop_last()),
                            total,
                        );
                    }
                    return ;
                }
                proof {
                    assert(visitor.leaves() =~= old(visitor).leaves() + claimed);
                }
                continue ;
            }
            let node = &map.nodes[node_id as usize];
            let on_left = self.is_on_left_size(map, position, node_id);
            let (near, far) = if on_left {
                (node.left_child_id, node.right_child_id)
            } else {
                (node.right_child_id, node.left_child_id)
            };
            let ghost mid_stack = self.stack@;
            let far_box = if on_left {
                &node.right_box
            } else {
                &node.left_box
            };
            proof {
                assert(map.nodes@[node_id as int].ids_ok(node_id as int, *map));
                assert(child_weight(*map, node_id, near) == node_weight_entry(*map, near));
                assert(child_weight(*map, node_id, far) == node_weight_entry(*map, far));
                assert(entry_seq(m, pos, node_id) == child_seq(m, pos, node_id, near) + child_seq(
                    m,
                    pos,
                    node_id,
                    far,
                ));
                assert(child_seq(m, pos, node_id, near) =~= entry_seq(m, pos, near));
                assert(child_seq(m, pos, node_id, far) =~= entry_seq(m, pos, far));
            }
            if visitor.test_node(far_box) {
                self.stack.push(far);
                proof {
                    lemma_stack_seq_push(m, pos, mid_stack, far);
                }
                let ghost with_far = self.stack@;
                self.stack.push(near);
                proof {
                    lemma_stack_seq_push(m, pos, with_far, near);
                    assert(self.stack@ =~= with_far.push(near));
                    // Both children pushed: the owed order is unchanged.
                    assert(claimed + stack_seq(m, pos, self.stack@) =~= claimed + stack_seq(
                        m,
                        pos,
                        prev_stack,
                    ));
                }
            } else {
                self.stack.push(near);
                proof {
                    lemma_stack_seq_push(m, pos, mid_stack, near);
                    assert(self.stack@ =~= mid_stack.push(near));
                    // The far subtree is pruned: the new owed order is
                    // the old one with the far child's run cut out.
                    let p = claimed + entry_seq(m, pos, near);
                    let bmid = entry_seq(m, pos, far);
                    let c = stack_seq(m, pos, mid_stack);
                    assert(claimed + stack_seq(m, pos, self.stack@) =~= p + c);
                    assert(claimed + stack_seq(m, pos, prev_stack) =~= p + bmid + c);
                    lemma_subseq_drop_middle(p, bmid, c);
                    lemma_subseq_trans(p + c, p + bmid + c, total);
                }
            }
        }
        proof {
            lemma_stack_seq_empty(m, pos, self.stack@);
            assert(claimed + stack_seq(m, pos, self.stack@) =~= claimed);
        }
    }

    /// Height of the floor under the point: descend to the point's leaf,
    /// follow its first segment to its front sector, and read that
    /// sector's floor height; 0 when nothing resolves.
    pub fn floor_height(&self, map: &LevelMap, position: &Vector2<i16>) -> (r: i16)
        requires
            map.wf(),
            self.root_id < map.nodes@.len(),
        ensures
            r == spec_floor_height(*map, *position, self.root_id),
    {
        let mut node_id = self.root_id;
        while node_id < LEAF_FLAG
            invariant
                map.wf(),
                node_id >= LEAF_FLAG || node_id < map.nodes@.len(),
                spec_leaf_for(*map, *position, node_id) == spec_leaf_for(
                    *map,
                    *position,
                    self.root_id,
                ),
            decreases (if node_id >= LEAF_FLAG {
                0int
            } else {
                node_id + 1
            }),
        {
            let node = &map.nodes[node_id as usize];
            proof {
                assert(map.nodes@[node_id as int].ids_ok(node_id as int, *map));
            }
            if self.is_on_left_size(map, position, node_id) {
                node_id = node.left_child_id;
            } else {
                node_id = node.right_child_id;
            }
        }
        let sub_sector_id = node_id - LEAF_FLAG;
        if (sub_sector_id as usize) < map.sub_sectors.len() {
            let first_seg_id = map.sub_sectors[sub_sector_id as usize].first_seg_id;
            if (first_seg_id as usize) < map.segs.len() {
                let seg = map.segs[first_seg_id as usize];
                match seg.right_sector(map) {
                    Some(sector) => {
                        return sector.floor_height;
                    },
                    None => {
                        return 0;
                    },
                }
            }
        }
        0
    }
}

/// Pop budget of one stack entry.
pub open spec fn node_weight_entry(m: LevelMap, id: u16) -> nat {
    if id >= LEAF_FLAG {
        1
    } else {
        node_weight(m, id)
    }
}

/// The leaf reference the side tests lead to from `node_id`.
pub open spec fn spec_leaf_for(m: LevelMap, position: Vector2<i16>, node_id: u16) -> u16
    decreases (if node_id >= LEAF_FLAG {
        0int
    } else {
        node_id + 1
    }),
{
    if node_id >= LEAF_FLAG {
        node_id
    } else if node_id < m.nodes@.len() {
        let node = m.nodes@[node_id as int];
        let next = if spec_on_left(position, node) {
            node.left_child_id
        } else {
            node.right_child_id
        };
        if next >= LEAF_FLAG || next < node_id {
            spec_leaf_for(m, position, next)
        } else {
            node_id
        }
    } else {
        node_id
    }
}

/// The floor height under the point, as `floor_height` reports it.
pub open spec fn spec_floor_height(m: LevelMap, position: Vector2<i16>, root_id: u16) -> i16 {
    let leaf = spec_leaf_for(m, position, root_id);
    if leaf >= LEAF_FLAG && leaf - LEAF_FLAG < m.sub_sectors@.len() {
        let first_seg_id = m.sub_sectors@[leaf - LEAF_FLAG].first_seg_id;
        if first_seg_id < m.segs@.len() {
            let seg = m.segs@[first_seg_id as int];
            match seg.spec_side_sector(true, m) {
                Some(sector) => sector.floor_height,
                None => 0,
            }
        } else {
            0
        }
    } else {
        0
    }
}

/// Whether the interior node at index `n` separates leaf `a` from leaf
/// `b` for a viewer at `position`: `a` lies in the subtree of the child
/// on the viewer's side of the partition, `b` in the other child's.
pub open spec fn separates(m: LevelMap, position: Vector2<i16>, n: int, a: u16, b: u16) -> bool {
    let node = m.nodes@[n];
    child_seq(m, position, n as u16, near_child(position, node)).contains(a) && child_seq(
        m,
        position,
        n as u16,
        far_child(position, node),
    ).contains(b)
}

/// The front-to-back ordering law: whenever the traversal yields leaf
/// `A` before leaf `B`, some partition node separates them, and at that
/// node `A` lies in the near child (the query point's side of the
/// partition line) while `B` lies in the far child.
pub proof fn lemma_traversal_front_to_back(
    m: LevelMap,
    position: Vector2<i16>,
    node_id: u16,
    i: int,
    j: int,
)
    requires
        m.wf(),
        node_id < m.nodes@.len(),
        node_id < LEAF_FLAG,
        0 <= i < j < traversal(m, position, node_id).len(),
    ensures
        exists|n: int|
            0 <= n < m.nodes@.len() && #[trigger] separates(
                m,
                position,
                n,
                traversal(m, position, node_id)[i],
                traversal(m, position, node_id)[j],
            ),
    decreases node_id,
{
    let node = m.nodes@[node_id as int];
    let near = near_child(position, node);
    let far = far_child(position, node);
    let ns = child_seq(m, position, node_id, near);
    let fs = child_seq(m, position, node_id, far);
    let t = traversal(m, position, node_id);
    assert(t == ns + fs);
    assert(node.ids_ok(node_id as int, m));
    if j < ns.len() {
        // Both leaves lie in the near child, which must be an interior
        // subtree: a leaf child contributes a single entry.
        assert(near < LEAF_FLAG && near < node_id);
        assert(ns == traversal(m, position, near));
        assert(t[i] == ns[i] && t[j] == ns[j]);
        lemma_traversal_front_to_back(m, position, near, i, j);
    } else if i >= ns.len() {
        // Both leaves lie in the far child.
        assert(far < LEAF_FLAG && far < node_id);
        assert(fs == traversal(m, position, far));
        assert(t[i] == fs[i - ns.len()] && t[j] == fs[j - ns.len()]);
        lemma_traversal_front_to_back(m, position, far, i - ns.len(), j - ns.len());
    } else {
        // This node separates them: the earlier leaf in the near child,
        // the later one in the far child.
        assert(ns.contains(t[i])) by {
            assert(ns[i] == t[i]);
        }
        assert(fs.contains(t[j])) by {
            assert(fs[j - ns.len()] == t[j]);
        }
        assert(separates(m, position, node_id as int, t[i], t[j]));
    }
}

/// The ordering law carried to a pruned walk: any two leaves a visitor
/// received, in the order it received them, are separated by a
/// partition node with the earlier leaf on the query point's side.
pub proof fn lemma_visit_front_to_back(
    m: LevelMap,
    position: Vector2<i16>,
    root_id: u16,
    s: Seq<u16>,
    i: int,
    j: int,
)
    requires
        m.wf(),
        root_id < m.nodes@.len(),
        subseq_of(s, traversal(m, position, root_id)),
        0 <= i < j < s.len(),
    ensures
        exists|n: int| 0 <= n < m.nodes@.len() && #[trigger] separates(m, position, n, s[i], s[j]),
{
    let t = traversal(m, position, root_id);
    let f = choose|f: Seq<int>| is_embedding(f, s, t);
    assert(s[i] == t[f[i]]);
    assert(s[j] == t[f[j]]);
    assert(f[i] < f[j]);
    lemma_traversal_front_to_back(m, position, root_id, f[i], f[j]);
}

} // verus!
