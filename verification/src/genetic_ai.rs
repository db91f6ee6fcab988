//! Expression trees: the genetic programs that score game states.
//!
//! A tree is a binary structure of operator nodes over feature-reading
//! leaves. Construction (the Grow and Full strategies) is verified here; the
//! numeric evaluation of a tree against a game state is floating point and
//! lives with the unverified driver.

use vstd::prelude::*;

use crate::game::Board;
use crate::rng;
use crate::snake::Snake;

verus! {

/// The operator of an internal tree node.
#[derive(Debug, Clone, Copy, PartialEq, Eq, Structural)]
pub enum InternalNode {
    Add,
    Sub,
    Mul,
    Div,
    Max,
    Min,
}

/// The game feature a leaf node reads.
#[derive(Debug, Clone, Copy, PartialEq, Eq, Structural)]
pub enum LeafNode {
    SnakeLength,
    SnakeDirection,
    AppleDistance,
    AppleDirection,
    Random,
    Row,
    Column,
}

/// What a tree node is: an operator over two children, or a feature read.
#[derive(Debug, Clone, Copy, PartialEq, Eq, Structural)]
pub enum NodeType {
    Internal(InternalNode),
    Leaf(LeafNode),
}

/// One tree node. A well-formed internal node owns exactly two children; a
/// well-formed leaf owns none (see `node_wf`).
pub struct Node {
    pub node_type: NodeType,
    pub left: Option<Box<Node>>,
    pub right: Option<Box<Node>>,
}

/// The tree-generation strategy: `Grow` stops early at random, `Full` builds
/// a complete tree.
#[derive(Debug, Clone, Copy, PartialEq, Eq, Structural)]
pub enum Method {
    Grow,
    Full,
}

/// An expression tree.
pub struct Tree {
    pub root: Node,
}

/// Well-formedness: every internal node has both children present and
/// well-formed, and every leaf has none — so every path ends in a leaf.
pub open spec fn node_wf(n: Node) -> bool
    decreases n,
{
    match n.node_type {
        NodeType::Leaf(_) => n.left is None && n.right is None,
        NodeType::Internal(_) => match (n.left, n.right) {
            (Some(l), Some(r)) => node_wf(*l) && node_wf(*r),
            _ => false,
        },
    }
}

/// The depth of a node: 0 for a leaf, one more than the deeper child
/// otherwise.
pub open spec fn depth(n: Node) -> nat
    decreases n,
{
    match (n.left, n.right) {
        (Some(l), Some(r)) => {
            let dl = depth(*l);
            let dr = depth(*r);
            (1 + if dl >= dr {
                dl
            } else {
                dr
            }) as nat
        },
        _ => 0,
    }
}

/// How many leaf nodes the tree holds.
pub open spec fn leaf_count(n: Node) -> nat
    decreases n,
{
    match (n.left, n.right) {
        (Some(l), Some(r)) => leaf_count(*l) + leaf_count(*r),
        _ => 1,
    }
}

/// How many internal (operator) nodes the tree holds.
pub open spec fn internal_count(n: Node) -> nat
    decreases n,
{
    match (n.left, n.right) {
        (Some(l), Some(r)) => 1 + internal_count(*l) + internal_count(*r),
        _ => 0,
    }
}

/// Two to the given power.
pub open spec fn pow2(k: nat) -> nat
    decreases k,
{
    if k == 0 {
        1
    } else {
        2 * pow2((k - 1) as nat)
    }
}

impl Node {
    /// A childless node of the given type.
    pub fn new(node_type: NodeType) -> (r: Node)
        ensures
            r.node_type == node_type,
            r.left is None,
            r.right is None,
    {
        Node { node_type, left: None, right: None }
    }

    /// A leaf whose feature is drawn uniformly from the seven features.
    fn new_leaf() -> (r: Node)
        ensures
            r.node_type is Leaf,
            r.left is None,
            r.right is None,
            node_wf(r),
            depth(r) == 0,
            leaf_count(r) == 1,
            internal_count(r) == 0,
    {
        let k = rng::random_below_i32(7);
        let leaf = match k {
            0 => LeafNode::SnakeLength,
            1 => LeafNode::SnakeDirection,
            2 => LeafNode::AppleDistance,
            3 => LeafNode::AppleDirection,
            4 => LeafNode::Random,
            5 => LeafNode::Row,
            _ => LeafNode::Column,
        };
        Node { node_type: NodeType::Leaf(leaf), left: None, right: None }
    }

    /// A childless internal node whose operator is drawn uniformly from the
    /// six operators.
    fn new_internal() -> (r: Node)
        ensures
            r.node_type is Internal,
            r.left is None,
            r.right is None,
    {
        let k = rng::random_below_i32(6);
        let op = match k {
            0 => InternalNode::Add,
            1 => InternalNode::Sub,
            2 => InternalNode::Mul,
            3 => InternalNode::Div,
            4 => InternalNode::Max,
            _ => InternalNode::Min,
        };
        Node { node_type: NodeType::Internal(op), left: None, right: None }
    }
}

impl Tree {
    /// A random tree built by the given strategy, never deeper than
    /// `depth_limit`; a `Full` tree is complete, with exactly `2^depth_limit`
    /// leaves and `2^depth_limit - 1` internal nodes.
    pub fn new(depth_limit: u32, method: Method) -> (r: Tree)
        requires
            method is Full ==> depth_limit >= 1,
        ensures
            node_wf(r.root),
            depth(r.root) <= depth_limit,
            method is Full ==> {
                &&& depth(r.root) == depth_limit
                &&& leaf_count(r.root) == pow2(depth_limit as nat)
                &&& internal_count(r.root) + 1 == pow2(depth_limit as nat)
            },
    {
        let starting_node = match method {
            Method::Grow => Tree::grow(depth_limit, 0),
            Method::Full => Tree::full(depth_limit, 0),
        };
        Tree { root: starting_node }
    }

    /// The Grow strategy: below the depth limit, a fair coin decides between
    /// stopping with a random leaf and building an internal node over two
    /// recursively grown children; at the limit the node is always a leaf.
    fn grow(depth_limit: u32, curr_level: u32) -> (r: Node)
        requires
            curr_level <= depth_limit,
        ensures
            node_wf(r),
            depth(r) <= depth_limit - curr_level,
        decreases depth_limit - curr_level,
    {
        if curr_level == depth_limit {
            return Node::new_leaf();
        }
        if rng::random_chance(1, 2) {
            let mut new_node = Node::new_internal();
            new_node.left = Some(Box::new(Tree::grow(depth_limit, curr_level + 1)));
            new_node.right = Some(Box::new(Tree::grow(depth_limit, curr_level + 1)));
            new_node
        } else {
            Node::new_leaf()
        }
    }

    /// The Full strategy: a complete binary tree with leaves exactly at the
    /// depth limit. The root is always an internal node, so the limit must be
    /// at least 1.
    fn full(depth_limit: u32, curr_level: u32) -> (r: Node)
        requires
            depth_limit >= 1,
            curr_level <= depth_limit,
        ensures
            node_wf(r),
            depth(r) == depth_limit - curr_level,
            leaf_count(r) == pow2((depth_limit - curr_level) as nat),
            internal_count(r) + 1 == pow2((depth_limit - curr_level) as nat),
        decreases depth_limit - curr_level,
    {
        if curr_level == 0 {
            let mut new_node = Node::new_internal();
            new_node.left = Some(Box::new(Tree::full(depth_limit, curr_level + 1)));
            new_node.right = Some(Box::new(Tree::full(depth_limit, curr_level + 1)));
            new_node
        } else if curr_level == depth_limit {
            Node::new_leaf()
        } else {
            let mut new_node = Node::new_internal();
            new_node.left = Some(Box::new(Tree::full(depth_limit, curr_level + 1)));
            new_node.right = Some(Box::new(Tree::full(depth_limit, curr_level + 1)));
            new_node
        }
    }
}

/// A candidate controller: one expression tree and the fitness its last full
/// game run earned, with the terminal board and snake kept for reporting.
pub struct Agent {
    pub fitness: u32,
    pub gene: Tree,
    pub final_board: Option<Board>,
    pub final_snake: Option<Snake>,
}

impl Agent {
    /// A fresh agent with fitness 0, no recorded run, and a random tree built
    /// by the given strategy within the given depth limit.
    pub fn new(depth_limit: u32, method: Method) -> (r: Agent)
        requires
            method is Full ==> depth_limit >= 1,
        ensures
            r.fitness == 0,
            r.final_board is None,
            r.final_snake is None,
            node_wf(r.gene.root),
            depth(r.gene.root) <= depth_limit,
            method is Full ==> {
                &&& depth(r.gene.root) == depth_limit
                &&& leaf_count(r.gene.root) == pow2(depth_limit as nat)
                &&& internal_count(r.gene.root) + 1 == pow2(depth_limit as nat)
            },
    {
        Agent { fitness: 0, gene: Tree::new(depth_limit, method), final_board: None, final_snake: None }
    }
}

} // verus!
