//! Nodes and paths of the analysis graph of one sentence, as plain values.
//!
//! A node or a path names its neighbours by their position in the graph that
//! owns them, so two nodes of one graph are the same node exactly when their
//! positions are equal.
use crate::feat::FeatureReader;
use crate::text::{decodes, str_from_utf8};
use std::str::Utf8Error;
use vstd::prelude::*;

verus! {

/// Attribute ID.
#[derive(Debug, Clone, Copy, PartialEq, Eq, PartialOrd, Ord, Hash, Structural)]
pub struct Attribute(pub u16);

/// Status of a node.
#[derive(Debug, Clone, Copy, PartialEq, Eq, PartialOrd, Ord, Hash, Structural)]
pub enum NodeStatus {
    /// Normal node defined in the dictionary.
    Normal,
    /// Unknown node not defined in the dictionary.
    Unknown,
    /// Virtual node representing a beginning of the sentence.
    Bos,
    /// Virtual node representing an end of the sentence.
    Eos,
    /// Virtual node representing an end of the N-best enumeration.
    EoNbest,
}

/// Status code of a normal node.
pub const STAT_NORMAL: u8 = 0;

/// Status code of an unknown node.
pub const STAT_UNKNOWN: u8 = 1;

/// Status code of the beginning-of-sentence node.
pub const STAT_BOS: u8 = 2;

/// Status code of the end-of-sentence node.
pub const STAT_EOS: u8 = 3;

impl NodeStatus {
    /// The status that a status code stands for: every code above that of the
    /// end of the sentence marks the end of the N-best enumeration.
    pub open spec fn of_code(stat: u8) -> NodeStatus {
        if stat == STAT_NORMAL {
            NodeStatus::Normal
        } else if stat == STAT_UNKNOWN {
            NodeStatus::Unknown
        } else if stat == STAT_BOS {
            NodeStatus::Bos
        } else if stat == STAT_EOS {
            NodeStatus::Eos
        } else {
            NodeStatus::EoNbest
        }
    }

    /// Decodes a status code.
    pub fn from_code(stat: u8) -> (s: NodeStatus)
        ensures
            s == NodeStatus::of_code(stat),
    {
        match stat {
            0 => NodeStatus::Normal,
            1 => NodeStatus::Unknown,
            2 => NodeStatus::Bos,
            3 => NodeStatus::Eos,
            _ => NodeStatus::EoNbest,
        }
    }

    /// Whether the status is `Normal`.
    pub fn is_normal(self) -> (b: bool)
        ensures
            b == (self == NodeStatus::Normal),
    {
        self == NodeStatus::Normal
    }

    /// Whether the status is `Unknown`.
    pub fn is_unknown(self) -> (b: bool)
        ensures
            b == (self == NodeStatus::Unknown),
    {
        self == NodeStatus::Unknown
    }

    /// Whether the status is `Bos`.
    pub fn is_bos(self) -> (b: bool)
        ensures
            b == (self == NodeStatus::Bos),
    {
        self == NodeStatus::Bos
    }

    /// Whether the status is `Eos`.
    pub fn is_eos(self) -> (b: bool)
        ensures
            b == (self == NodeStatus::Eos),
    {
        self == NodeStatus::Eos
    }

    /// Whether the status is `EoNbest`.
    pub fn is_eon(self) -> (b: bool)
        ensures
            b == (self == NodeStatus::EoNbest),
    {
        self == NodeStatus::EoNbest
    }
}

/// One candidate segment of the sentence.
///
/// The links are positions in the node and path tables of the graph that the
/// node belongs to.
#[derive(Debug, Clone)]
pub struct Node {
    /// Position of the previous node.
    pub prev: Option<usize>,
    /// Position of the next node.
    pub next: Option<usize>,
    /// Position of the next node that ends at the same offset.
    pub enext: Option<usize>,
    /// Position of the next node that starts at the same offset.
    pub bnext: Option<usize>,
    /// Position of the first path to the right.
    pub rpath: Option<usize>,
    /// Position of the first path to the left.
    pub lpath: Option<usize>,
    /// Surface form; it has `length` bytes.
    pub surface: Vec<u8>,
    /// Feature string, without a terminator.
    pub feature: Vec<u8>,
    /// Unique node ID.
    pub id: u32,
    /// Length of the surface form.
    pub length: u16,
    /// Length of the surface form including white space before the morph.
    pub rlength: u16,
    /// Right attribute ID.
    pub rattr: Attribute,
    /// Left attribute ID.
    pub lattr: Attribute,
    /// Unique part of speech ID.
    pub posid: u16,
    /// Character type.
    pub char_type: u8,
    /// Status code.
    pub stat: u8,
    /// 1 for a node on the best path.
    pub isbest: u8,
    /// Word cost.
    pub wcost: i16,
    /// Best accumulative cost from the beginning of the sentence to this node.
    pub cost: i64,
}

/// A scored edge between two adjacent nodes.
#[derive(Debug, Clone)]
pub struct Path {
    /// Position of the right node.
    pub rnode: Option<usize>,
    /// Position of the next path with the same right node.
    pub rnext: Option<usize>,
    /// Position of the left node.
    pub lnode: Option<usize>,
    /// Position of the next path with the same left node.
    pub lnext: Option<usize>,
    /// Local cost.
    pub cost: i32,
}

/// Whether a link is absent or names a position below `bound`.
pub open spec fn link_ok(link: Option<usize>, bound: nat) -> bool {
    match link {
        Some(i) => i < bound,
        None => true,
    }
}

/// Tests `link_ok`.
pub fn check_link(link: Option<usize>, bound: usize) -> (b: bool)
    ensures
        b == link_ok(link, bound as nat),
{
    match link {
        Some(i) => i < bound,
        None => true,
    }
}

impl Node {
    /// A node without links, of the given status and texts, with every number
    /// but the surface length zero.
    pub fn new(stat: u8, surface: Vec<u8>, feature: Vec<u8>) -> (n: Node)
        requires
            surface@.len() <= u16::MAX,
        ensures
            n.well_formed(),
            n.stat == stat,
            n.surface@ == surface@,
            n.feature@ == feature@,
            n.prev.is_none() && n.next.is_none() && n.enext.is_none() && n.bnext.is_none(),
            n.rpath.is_none() && n.lpath.is_none(),
            n.id == 0 && n.rlength == 0 && n.posid == 0 && n.char_type == 0 && n.isbest == 0,
            n.rattr == Attribute(0) && n.lattr == Attribute(0) && n.wcost == 0 && n.cost == 0,
    {
        let length: u16 = surface.len() as u16;
        Node {
            prev: None,
            next: None,
            enext: None,
            bnext: None,
            rpath: None,
            lpath: None,
            surface,
            feature,
            id: 0,
            length,
            rlength: 0,
            rattr: Attribute(0),
            lattr: Attribute(0),
            posid: 0,
            char_type: 0,
            stat,
            isbest: 0,
            wcost: 0,
            cost: 0,
        }
    }

    /// The surface has exactly `length` bytes.
    pub open spec fn well_formed(&self) -> bool {
        self.surface@.len() == self.length
    }

    /// Every link names a position inside a graph of `nodes` nodes and `paths`
    /// paths.
    pub open spec fn links_within(&self, nodes: nat, paths: nat) -> bool {
        &&& link_ok(self.prev, nodes)
        &&& link_ok(self.next, nodes)
        &&& link_ok(self.enext, nodes)
        &&& link_ok(self.bnext, nodes)
        &&& link_ok(self.rpath, paths)
        &&& link_ok(self.lpath, paths)
    }

    /// Tests `well_formed` and `links_within`.
    pub fn check(&self, nodes: usize, paths: usize) -> (b: bool)
        ensures
            b == (self.well_formed() && self.links_within(nodes as nat, paths as nat)),
    {
        self.surface.len() == self.length as usize && check_link(self.prev, nodes) && check_link(
            self.next,
            nodes,
        ) && check_link(self.enext, nodes) && check_link(self.bnext, nodes) && check_link(
            self.rpath,
            paths,
        ) && check_link(self.lpath, paths)
    }

    /// Position of the next node, if there is one.
    pub fn next(&self) -> (r: Option<usize>)
        ensures
            r == self.next,
    {
        self.next
    }

    /// Position of the previous node, if there is one.
    pub fn prev(&self) -> (r: Option<usize>)
        ensures
            r == self.prev,
    {
        self.prev
    }

    /// Position of the next node which ends at the same offset, if there is one.
    pub fn enext(&self) -> (r: Option<usize>)
        ensures
            r == self.enext,
    {
        self.enext
    }

    /// Position of the next node which starts at the same offset, if there is
    /// one.
    pub fn bnext(&self) -> (r: Option<usize>)
        ensures
            r == self.bnext,
    {
        self.bnext
    }

    /// Position of the right path, if there is one.
    pub fn rpath(&self) -> (r: Option<usize>)
        ensures
            r == self.rpath,
    {
        self.rpath
    }

    /// Position of the left path, if there is one.
    pub fn lpath(&self) -> (r: Option<usize>)
        ensures
            r == self.lpath,
    {
        self.lpath
    }

    /// Status of this node.
    pub fn status(&self) -> (s: NodeStatus)
        ensures
            s == NodeStatus::of_code(self.stat),
    {
        NodeStatus::from_code(self.stat)
    }

    /// Whether this node lies on the best path.
    pub fn is_best(&self) -> (b: bool)
        ensures
            b == (self.isbest == 1),
    {
        self.isbest == 1
    }

    /// Length of the surface form.
    pub fn surface_len(&self) -> (n: usize)
        ensures
            n == self.length,
    {
        self.length as usize
    }

    /// Surface form.
    pub fn surface(&self) -> (s: &[u8])
        ensures
            s@ == self.surface@,
    {
        self.surface.as_slice()
    }

    /// The surface form as text: an error exactly when it is no UTF-8.
    pub fn surface_str(&self) -> (r: Result<&str, Utf8Error>)
        ensures
            decodes(self.surface@, r),
    {
        str_from_utf8(self.surface.as_slice())
    }

    /// Feature string.
    pub fn features(&self) -> (s: &[u8])
        ensures
            s@ == self.feature@,
    {
        self.feature.as_slice()
    }

    /// The feature string as text: an error exactly when it is no UTF-8.
    pub fn features_str(&self) -> (r: Result<&str, Utf8Error>)
        ensures
            decodes(self.feature@, r),
    {
        str_from_utf8(self.feature.as_slice())
    }

    /// A reader over the feature string of this node.
    pub fn feature_reader(&self) -> (r: FeatureReader<'_>)
        ensures
            r@ == self.feature@,
    {
        FeatureReader::from_node(self)
    }
}

impl Path {
    /// Tests that every link names a position inside a graph of `nodes` nodes
    /// and `paths` paths.
    pub fn check(&self, nodes: usize, paths: usize) -> (b: bool)
        ensures
            b == self.links_within(nodes as nat, paths as nat),
    {
        check_link(self.rnode, nodes) && check_link(self.lnode, nodes) && check_link(
            self.rnext,
            paths,
        ) && check_link(self.lnext, paths)
    }

    /// Every link names a position inside a graph of `nodes` nodes and `paths`
    /// paths.
    pub open spec fn links_within(&self, nodes: nat, paths: nat) -> bool {
        &&& link_ok(self.rnode, nodes)
        &&& link_ok(self.lnode, nodes)
        &&& link_ok(self.rnext, paths)
        &&& link_ok(self.lnext, paths)
    }

    /// Position of the next right path, if there is one.
    pub fn rnext(&self) -> (r: Option<usize>)
        ensures
            r == self.rnext,
    {
        self.rnext
    }

    /// Position of the next left path, if there is one.
    pub fn lnext(&self) -> (r: Option<usize>)
        ensures
            r == self.lnext,
    {
        self.lnext
    }

    /// Position of the right node, if there is one.
    pub fn rnode(&self) -> (r: Option<usize>)
        ensures
            r == self.rnode,
    {
        self.rnode
    }

    /// Position of the left node, if there is one.
    pub fn lnode(&self) -> (r: Option<usize>)
        ensures
            r == self.lnode,
    {
        self.lnode
    }
}

} // verus!
