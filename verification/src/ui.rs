//! Records of the game's layout engine that the modpack reads. Links between
//! nodes are kept as the addresses the game stores.
use vstd::prelude::*;

verus! {

/// A Lua value as the game passes it: the payload and its type tag.
#[derive(Clone, Copy, Debug, PartialEq, Eq, Structural)]
pub struct TValue {
    pub value: u64,
    pub tt: i32,
}

/// A node of the doubly linked list of animation transforms.
#[derive(Clone, Copy, Debug, PartialEq, Eq, Structural)]
pub struct AnimTransformNode {
    pub prev: u64,
    pub next: u64,
}

/// The list of animation transforms of a layout, held by its root node.
#[derive(Clone, Copy, Debug, PartialEq, Eq, Structural)]
pub struct AnimTransformList {
    pub root: AnimTransformNode,
}

/// A node of the doubly linked list of panes of a group.
#[derive(Clone, Copy, Debug, PartialEq, Eq, Structural)]
pub struct PaneNode {
    pub prev: u64,
    pub next: u64,
}

/// The container of a layout's groups; the modpack reads none of its contents.
#[derive(Clone, Copy, Debug, PartialEq, Eq, Structural)]
pub struct GroupContainer {}

} // verus!
