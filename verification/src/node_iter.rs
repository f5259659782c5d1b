//! Cursors that walk the nodes of a graph along `next` or along `prev`.
use crate::graph::{node_ok, walk_next, walk_prev, Graph};
use crate::lattice::Lattice;
use crate::node::Node;
use vstd::prelude::*;

verus! {

/// A cursor that walks along `next`.
pub struct NodeIter<'a> {
    at: Option<(&'a Graph, usize)>,
}

/// A cursor that walks along `prev`.
pub struct NodeRevIter<'a> {
    at: Option<(&'a Graph, usize)>,
}

/// The node at an optional position of a graph.
pub open spec fn node_of(at: Option<(&Graph, usize)>) -> Option<&Node> {
    match at {
        Some((g, i)) => if i < g.nodes().len() {
            Some(&g.nodes()[i as int])
        } else {
            None
        },
        None => None,
    }
}

/// The position at which a cursor over `graph` that is made for `position`
/// stands: on a node of the graph, or nowhere.
pub open spec fn placed(graph: &Graph, position: Option<usize>) -> Option<(&Graph, usize)> {
    match position {
        Some(i) => if i < graph.nodes().len() {
            Some((graph, i))
        } else {
            None
        },
        None => None,
    }
}

impl<'a> NodeIter<'a> {
    /// The graph and the position at which the cursor stands, if it stands on
    /// a node.
    pub closed spec fn at(&self) -> Option<(&'a Graph, usize)> {
        self.at
    }

    /// The positions that the cursor has yet to yield, in order.
    pub open spec fn remaining(&self) -> Seq<usize> {
        match self.at() {
            Some((g, i)) => walk_next(g.nodes(), i),
            None => Seq::empty(),
        }
    }

    /// A cursor that stands on a node stands on a node of its graph.
    #[verifier::type_invariant]
    spec fn on_a_node(&self) -> bool {
        match self.at {
            Some((g, i)) => i < g.nodes().len(),
            None => true,
        }
    }

    /// The node on which the cursor stands.
    pub fn get_node(&self) -> (r: Option<&'a Node>)
        ensures
            r == node_of(self.at()),
            r is Some <==> self.at() is Some,
    {
        proof {
            use_type_invariant(self);
        }
        match self.at {
            Some((g, i)) => g.node(i),
            None => None,
        }
    }

    /// The position on which the cursor stands.
    pub fn position(&self) -> (r: Option<usize>)
        ensures
            r == match self.at() {
                Some((g, i)) => Some(i),
                None => None,
            },
    {
        match self.at {
            Some((g, i)) => Some(i),
            None => None,
        }
    }

    /// A cursor that stands nowhere.
    pub fn none() -> (it: Self)
        ensures
            it.at() is None,
    {
        Self { at: None }
    }

    /// A cursor on the node at `node`; it stands nowhere where the graph has
    /// no such node.
    pub fn from_node(graph: &'a Graph, node: usize) -> (it: Self)
        ensures
            it.at() == placed(graph, Some(node)),
    {
        Self::from_node_option(graph, Some(node))
    }

    /// A cursor on the node at `node`; it stands nowhere where `node` is
    /// `None` or the graph has no such node.
    pub fn from_node_option(graph: &'a Graph, node: Option<usize>) -> (it: Self)
        ensures
            it.at() == placed(graph, node),
    {
        match node {
            Some(i) => {
                if i < graph.len() {
                    Self { at: Some((graph, i)) }
                } else {
                    Self { at: None }
                }
            },
            None => Self { at: None },
        }
    }

    /// A cursor on the node of the beginning of the sentence; it stands
    /// nowhere where the lattice holds no graph.
    pub fn from_bos(lattice: &'a Lattice) -> (it: Self)
        ensures
            it.at() == match lattice@.graph {
                Some(g) => Some((&g, g.bos())),
                None => None,
            },
            it.remaining() == lattice@.walk(),
            lattice@.well_formed(),
    {
        match lattice.graph_ref() {
            Some(g) => {
                let bos: usize = g.bos_position();
                Self { at: Some((g, bos)) }
            },
            None => Self { at: None },
        }
    }

    /// Yields the node on which the cursor stands and moves along `next`.
    pub fn next(&mut self) -> (r: Option<&'a Node>)
        ensures
            r == node_of(old(self).at()),
            r is Some <==> old(self).at() is Some,
            final(self).at() == match old(self).at() {
                Some((g, i)) => placed(g, g.nodes()[i as int].next),
                None => None,
            },
            old(self).remaining().len() == 0 ==> r is None && final(self).remaining().len() == 0,
            old(self).remaining().len() > 0 ==> final(self).remaining() == old(
                self,
            ).remaining().drop_first(),
    {
        proof {
            use_type_invariant(&*self);
        }
        match self.at {
            Some((g, i)) => {
                let node = g.node(i);
                match node {
                    Some(n) => {
                        proof {
                            assert(node_ok(g.nodes(), g.paths().len(), i as int));
                            let rest = match n.next {
                                Some(j) => walk_next(g.nodes(), j),
                                None => Seq::empty(),
                            };
                            assert((seq![i] + rest).drop_first() =~= rest);
                            assert(seq![i].drop_first() =~= Seq::<usize>::empty());
                        }
                        self.at = match n.next {
                            Some(j) => Some((g, j)),
                            None => None,
                        };
                        Some(n)
                    },
                    None => None,
                }
            },
            None => None,
        }
    }

    /// The positions that the cursor has yet to yield, in order.
    pub fn collect(self) -> (v: Vec<usize>)
        ensures
            v@ == self.remaining(),
    {
        let mut it = self;
        let mut v: Vec<usize> = Vec::new();
        loop
            invariant
                v@ + it.remaining() == self.remaining(),
            decreases it.remaining().len(),
        {
            match it.position() {
                Some(i) => {
                    proof {
                        use_type_invariant(&it);
                        assert(it.remaining().len() > 0);
                        assert(it.remaining()[0] == i);
                        assert(v@.push(i) + it.remaining().drop_first() =~= v@ + it.remaining());
                    }
                    v.push(i);
                    let _ = it.next();
                },
                None => {
                    proof {
                        assert(v@ + it.remaining() =~= v@);
                    }
                    return v;
                },
            }
        }
    }
}

impl<'a> NodeRevIter<'a> {
    /// The graph and the position at which the cursor stands, if it stands on
    /// a node.
    pub closed spec fn at(&self) -> Option<(&'a Graph, usize)> {
        self.at
    }

    /// The positions that the cursor has yet to yield, in order.
    pub open spec fn remaining(&self) -> Seq<usize> {
        match self.at() {
            Some((g, i)) => walk_prev(g.nodes(), i),
            None => Seq::empty(),
        }
    }

    /// A cursor that stands on a node stands on a node of its graph.
    #[verifier::type_invariant]
    spec fn on_a_node(&self) -> bool {
        match self.at {
            Some((g, i)) => i < g.nodes().len(),
            None => true,
        }
    }

    /// The node on which the cursor stands.
    pub fn get_node(&self) -> (r: Option<&'a Node>)
        ensures
            r == node_of(self.at()),
            r is Some <==> self.at() is Some,
    {
        proof {
            use_type_invariant(self);
        }
        match self.at {
            Some((g, i)) => g.node(i),
            None => None,
        }
    }

    /// The position on which the cursor stands.
    pub fn position(&self) -> (r: Option<usize>)
        ensures
            r == match self.at() {
                Some((g, i)) => Some(i),
                None => None,
            },
    {
        match self.at {
            Some((g, i)) => Some(i),
            None => None,
        }
    }

    /// A cursor that stands nowhere.
    pub fn none() -> (it: Self)
        ensures
            it.at() is None,
    {
        Self { at: None }
    }

    /// A cursor on the node at `node`; it stands nowhere where the graph has
    /// no such node.
    pub fn from_node(graph: &'a Graph, node: usize) -> (it: Self)
        ensures
            it.at() == placed(graph, Some(node)),
    {
        Self::from_node_option(graph, Some(node))
    }

    /// A cursor on the node at `node`; it stands nowhere where `node` is
    /// `None` or the graph has no such node.
    pub fn from_node_option(graph: &'a Graph, node: Option<usize>) -> (it: Self)
        ensures
            it.at() == placed(graph, node),
    {
        match node {
            Some(i) => {
                if i < graph.len() {
                    Self { at: Some((graph, i)) }
                } else {
                    Self { at: None }
                }
            },
            None => Self { at: None },
        }
    }

    /// A cursor on the node of the end of the sentence; it stands nowhere
    /// where the lattice holds no graph.
    pub fn from_eos(lattice: &'a Lattice) -> (it: Self)
        ensures
            it.at() == match lattice@.graph {
                Some(g) => Some((&g, g.eos())),
                None => None,
            },
            it.remaining() == lattice@.walk_rev(),
            lattice@.well_formed(),
    {
        match lattice.graph_ref() {
            Some(g) => {
                let eos: usize = g.eos_position();
                Self { at: Some((g, eos)) }
            },
            None => Self { at: None },
        }
    }

    /// Yields the node on which the cursor stands and moves along `prev`.
    pub fn next(&mut self) -> (r: Option<&'a Node>)
        ensures
            r == node_of(old(self).at()),
            r is Some <==> old(self).at() is Some,
            final(self).at() == match old(self).at() {
                Some((g, i)) => placed(g, g.nodes()[i as int].prev),
                None => None,
            },
            old(self).remaining().len() == 0 ==> r is None && final(self).remaining().len() == 0,
            old(self).remaining().len() > 0 ==> final(self).remaining() == old(
                self,
            ).remaining().drop_first(),
    {
        proof {
            use_type_invariant(&*self);
        }
        match self.at {
            Some((g, i)) => {
                let node = g.node(i);
                match node {
                    Some(n) => {
                        proof {
                            assert(node_ok(g.nodes(), g.paths().len(), i as int));
                            let rest = match n.prev {
                                Some(j) => walk_prev(g.nodes(), j),
                                None => Seq::empty(),
                            };
                            assert((seq![i] + rest).drop_first() =~= rest);
                            assert(seq![i].drop_first() =~= Seq::<usize>::empty());
                        }
                        self.at = match n.prev {
                            Some(j) => Some((g, j)),
                            None => None,
                        };
                        Some(n)
                    },
                    None => None,
                }
            },
            None => None,
        }
    }

    /// The positions that the cursor has yet to yield, in order.
    pub fn collect(self) -> (v: Vec<usize>)
        ensures
            v@ == self.remaining(),
    {
        let mut it = self;
        let mut v: Vec<usize> = Vec::new();
        loop
            invariant
                v@ + it.remaining() == self.remaining(),
            decreases it.remaining().len(),
        {
            match it.position() {
                Some(i) => {
                    proof {
                        use_type_invariant(&it);
                        assert(it.remaining().len() > 0);
                        assert(it.remaining()[0] == i);
                        assert(v@.push(i) + it.remaining().drop_first() =~= v@ + it.remaining());
                    }
                    v.push(i);
                    let _ = it.next();
                },
                None => {
                    proof {
                        assert(v@ + it.remaining() =~= v@);
                    }
                    return v;
                },
            }
        }
    }
}

} // verus!
