//! The node/path graph of one analysed sentence, and the walks along it.
//!
//! A graph keeps its nodes in sentence order: a `next` link leads to a later
//! position and a `prev` link to an earlier one. The best path leads from the
//! node of the beginning of the sentence to that of its end.
use crate::node::{Node, Path, STAT_BOS, STAT_EOS};
use vstd::prelude::*;

verus! {

/// Whether the node at position `k` is well formed, links into the graph, and
/// has its `next` behind and its `prev` before itself.
pub open spec fn node_ok(nodes: Seq<Node>, paths: nat, k: int) -> bool {
    &&& nodes[k].well_formed()
    &&& nodes[k].links_within(nodes.len(), paths)
    &&& (nodes[k].next matches Some(j) ==> k < j)
    &&& (nodes[k].prev matches Some(j) ==> j < k)
}

/// Whether following `next` from position `i` ends at `eos`, every step being
/// answered by the `prev` of the node it leads to.
pub open spec fn chain_ok(nodes: Seq<Node>, i: usize, eos: usize) -> bool
    decreases nodes.len() - i,
{
    if i < nodes.len() {
        match nodes[i as int].next {
            None => i == eos,
            Some(j) => i < j && j < nodes.len() && nodes[j as int].prev == Some(i) && chain_ok(
                nodes,
                j,
                eos,
            ),
        }
    } else {
        false
    }
}

/// Whether the parts make up a graph: every node and path is sound, `bos` and
/// `eos` are the two sentinels, and the best path leads from one to the
/// other.
pub open spec fn graph_ok(nodes: Seq<Node>, paths: Seq<Path>, bos: usize, eos: usize) -> bool {
    &&& forall|k: int| 0 <= k < nodes.len() ==> #[trigger] node_ok(nodes, paths.len(), k)
    &&& forall|k: int|
        0 <= k < paths.len() ==> (#[trigger] paths[k]).links_within(nodes.len(), paths.len())
    &&& bos < nodes.len()
    &&& eos < nodes.len()
    &&& nodes[bos as int].stat == STAT_BOS
    &&& nodes[eos as int].stat == STAT_EOS
    &&& nodes[bos as int].prev.is_none()
    &&& chain_ok(nodes, bos, eos)
}

/// The positions met by following `next` from position `i`, `i` first.
pub open spec fn walk_next(nodes: Seq<Node>, i: usize) -> Seq<usize>
    decreases nodes.len() - i,
{
    if i < nodes.len() {
        match nodes[i as int].next {
            Some(j) => if i < j && j < nodes.len() {
                seq![i] + walk_next(nodes, j)
            } else {
                seq![i]
            },
            None => seq![i],
        }
    } else {
        Seq::empty()
    }
}

/// The positions met by following `prev` from position `i`, `i` first.
pub open spec fn walk_prev(nodes: Seq<Node>, i: usize) -> Seq<usize>
    decreases i,
{
    if i < nodes.len() {
        match nodes[i as int].prev {
            Some(j) => if j < i {
                seq![i] + walk_prev(nodes, j)
            } else {
                seq![i]
            },
            None => seq![i],
        }
    } else {
        Seq::empty()
    }
}

/// The surfaces of the nodes at the positions of `walk`, one after another.
pub open spec fn surfaces(nodes: Seq<Node>, walk: Seq<usize>) -> Seq<u8>
    decreases walk.len(),
{
    if walk.len() == 0 {
        Seq::empty()
    } else {
        nodes[walk[0] as int].surface@ + surfaces(nodes, walk.drop_first())
    }
}

/// Appends `bytes` to `acc`.
fn append_bytes(acc: &mut Vec<u8>, bytes: &[u8])
    ensures
        final(acc)@ == old(acc)@ + bytes@,
{
    let n: usize = bytes.len();
    let mut i: usize = 0;
    while i < n
        invariant
            n == bytes@.len(),
            i <= n,
            acc@ == old(acc)@ + bytes@.subrange(0, i as int),
        decreases n - i,
    {
        acc.push(bytes[i]);
        i = i + 1;
        assert(acc@ =~= old(acc)@ + bytes@.subrange(0, i as int));
    }
    assert(bytes@.subrange(0, n as int) =~= bytes@);
}

/// The graph of one analysed sentence.
#[derive(Debug)]
pub struct Graph {
    nodes: Vec<Node>,
    paths: Vec<Path>,
    bos: usize,
    eos: usize,
}

/// Tests `node_ok` for the node at position `k`.
fn check_node(nodes: &Vec<Node>, paths: usize, k: usize) -> (b: bool)
    requires
        k < nodes@.len(),
    ensures
        b == node_ok(nodes@, paths as nat, k as int),
{
    let node = &nodes[k];
    let forward = match node.next {
        Some(j) => k < j,
        None => true,
    };
    let backward = match node.prev {
        Some(j) => j < k,
        None => true,
    };
    node.check(nodes.len(), paths) && forward && backward
}

/// Tests whether an optional position is `i`.
fn is_position(link: Option<usize>, i: usize) -> (b: bool)
    ensures
        b == (link == Some(i)),
{
    match link {
        Some(j) => j == i,
        None => false,
    }
}

impl Graph {
    /// The nodes, by position.
    pub closed spec fn nodes(&self) -> Seq<Node> {
        self.nodes@
    }

    /// The paths, by position.
    pub closed spec fn paths(&self) -> Seq<Path> {
        self.paths@
    }

    /// The position of the node of the beginning of the sentence.
    pub closed spec fn bos(&self) -> usize {
        self.bos
    }

    /// The position of the node of the end of the sentence.
    pub closed spec fn eos(&self) -> usize {
        self.eos
    }

    /// The parts make up a graph.
    pub open spec fn well_formed(&self) -> bool {
        graph_ok(self.nodes(), self.paths(), self.bos(), self.eos())
    }

    /// Every graph that exists is made of parts that make up a graph.
    #[verifier::type_invariant]
    spec fn sound(&self) -> bool {
        graph_ok(self.nodes@, self.paths@, self.bos, self.eos)
    }

    /// The best path from the beginning of the sentence to its end.
    pub open spec fn forward(&self) -> Seq<usize> {
        walk_next(self.nodes(), self.bos())
    }

    /// The best path from the end of the sentence to its beginning.
    pub open spec fn backward(&self) -> Seq<usize> {
        walk_prev(self.nodes(), self.eos())
    }

    /// The surfaces along the best path, one after another.
    pub open spec fn surface_text(&self) -> Seq<u8> {
        surfaces(self.nodes(), self.forward())
    }

    /// Makes a graph of the parts, if they make up one.
    pub fn new(nodes: Vec<Node>, paths: Vec<Path>, bos: usize, eos: usize) -> (r: Option<Graph>)
        ensures
            r is Some <==> graph_ok(nodes@, paths@, bos, eos),
            r matches Some(g) ==> g.well_formed() && g.nodes() == nodes@ && g.paths() == paths@
                && g.bos() == bos && g.eos() == eos,
    {
        let n: usize = nodes.len();
        let m: usize = paths.len();
        let mut i: usize = 0;
        while i < n
            invariant
                n == nodes@.len(),
                m == paths@.len(),
                i <= n,
                forall|k: int| 0 <= k < i ==> #[trigger] node_ok(nodes@, m as nat, k),
            decreases n - i,
        {
            if !check_node(&nodes, m, i) {
                return None;
            }
            i = i + 1;
        }
        let mut p: usize = 0;
        while p < m
            invariant
                n == nodes@.len(),
                m == paths@.len(),
                p <= m,
                forall|k: int| 0 <= k < p ==> (#[trigger] paths@[k]).links_within(n as nat, m as nat),
            decreases m - p,
        {
            if !paths[p].check(n, m) {
                return None;
            }
            p = p + 1;
        }
        if bos >= n || eos >= n {
            return None;
        }
        if nodes[bos].stat != STAT_BOS || nodes[eos].stat != STAT_EOS || nodes[bos].prev.is_some() {
            return None;
        }
        let mut cur: usize = bos;
        loop
            invariant
                n == nodes@.len(),
                m == paths@.len(),
                cur < n,
                bos < n,
                eos < n,
                nodes@[bos as int].stat == STAT_BOS,
                nodes@[eos as int].stat == STAT_EOS,
                nodes@[bos as int].prev.is_none(),
                forall|k: int| 0 <= k < n ==> #[trigger] node_ok(nodes@, m as nat, k),
                forall|k: int|
                    0 <= k < m ==> (#[trigger] paths@[k]).links_within(n as nat, m as nat),
                chain_ok(nodes@, bos, eos) == chain_ok(nodes@, cur, eos),
            decreases n - cur,
        {
            assert(node_ok(nodes@, m as nat, cur as int));
            match nodes[cur].next {
                None => {
                    if cur == eos {
                        return Some(Graph { nodes, paths, bos, eos });
                    } else {
                        return None;
                    }
                },
                Some(j) => {
                    if !is_position(nodes[j].prev, cur) {
                        return None;
                    }
                    cur = j;
                },
            }
        }
    }

    /// The number of nodes.
    pub fn len(&self) -> (n: usize)
        ensures
            self.well_formed(),
            n == self.nodes().len(),
    {
        proof {
            use_type_invariant(self);
        }
        self.nodes.len()
    }

    /// Whether two positions name one node of the graph: a node is what it
    /// is by its position, so they do exactly when they are one position of
    /// the graph.
    pub open spec fn is_same_node(&self, a: usize, b: usize) -> bool {
        a == b && a < self.nodes().len()
    }

    /// Tests whether two positions name one node of the graph.
    pub fn same_node(&self, a: usize, b: usize) -> (r: bool)
        ensures
            r == self.is_same_node(a, b),
            r ==> self.nodes()[a as int] == self.nodes()[b as int],
    {
        a == b && a < self.nodes.len()
    }

    /// The node at position `i`, if there is one. Equal positions give the
    /// same node, and no other position gives it.
    pub fn node(&self, i: usize) -> (r: Option<&Node>)
        ensures
            self.well_formed(),
            i < self.nodes().len() ==> r == Some(&self.nodes()[i as int]),
            i >= self.nodes().len() ==> r is None,
    {
        proof {
            use_type_invariant(self);
        }
        if i < self.nodes.len() {
            Some(&self.nodes[i])
        } else {
            None
        }
    }

    /// The path at position `i`, if there is one.
    pub fn path(&self, i: usize) -> (r: Option<&Path>)
        ensures
            self.well_formed(),
            i < self.paths().len() ==> r == Some(&self.paths()[i as int]),
            i >= self.paths().len() ==> r is None,
    {
        proof {
            use_type_invariant(self);
        }
        if i < self.paths.len() {
            Some(&self.paths[i])
        } else {
            None
        }
    }

    /// The surfaces along the best path, one after another.
    pub fn best_surfaces(&self) -> (text: Vec<u8>)
        ensures
            text@ == self.surface_text(),
    {
        proof {
            use_type_invariant(self);
        }
        let mut text: Vec<u8> = Vec::new();
        let mut cur: Option<usize> = Some(self.bos);
        loop
            invariant
                graph_ok(self.nodes@, self.paths@, self.bos, self.eos),
                cur matches Some(i) ==> i < self.nodes@.len(),
                text@ + (match cur {
                    Some(i) => surfaces(self.nodes@, walk_next(self.nodes@, i)),
                    None => Seq::empty(),
                }) == surfaces(self.nodes@, walk_next(self.nodes@, self.bos)),
            decreases
                    match cur {
                        Some(i) => self.nodes@.len() - i,
                        None => 0,
                    },
        {
            match cur {
                None => {
                    assert(text@ + Seq::<u8>::empty() =~= text@);
                    return text;
                },
                Some(i) => {
                    let node = &self.nodes[i];
                    proof {
                        assert(node_ok(self.nodes@, self.paths@.len(), i as int));
                        let walk = walk_next(self.nodes@, i);
                        let rest = match node.next {
                            Some(j) => walk_next(self.nodes@, j),
                            None => Seq::empty(),
                        };
                        assert(walk.drop_first() =~= rest);
                        assert(surfaces(self.nodes@, walk) == node.surface@ + surfaces(
                            self.nodes@,
                            rest,
                        ));
                        assert((text@ + node.surface@) + surfaces(self.nodes@, rest) =~= text@ + (
                        node.surface@ + surfaces(self.nodes@, rest)));
                    }
                    append_bytes(&mut text, node.surface.as_slice());
                    cur = node.next;
                },
            }
        }
    }

    /// The position of the node of the beginning of the sentence.
    pub fn bos_position(&self) -> (i: usize)
        ensures
            self.well_formed(),
            i == self.bos(),
    {
        proof {
            use_type_invariant(self);
        }
        self.bos
    }

    /// The position of the node of the end of the sentence.
    pub fn eos_position(&self) -> (i: usize)
        ensures
            self.well_formed(),
            i == self.eos(),
    {
        proof {
            use_type_invariant(self);
        }
        self.eos
    }
}

/// Along a chain that ends at `eos`, following `prev` from `eos` meets the
/// nodes behind `i` in the reverse of the order in which following `next`
/// from `i` meets them, and then goes on as from `i`.
proof fn lemma_chain_reversed(nodes: Seq<Node>, i: usize, eos: usize)
    requires
        chain_ok(nodes, i, eos),
    ensures
        walk_next(nodes, i).len() >= 1,
        walk_next(nodes, i)[0] == i,
        walk_prev(nodes, eos) == walk_next(nodes, i).reverse().drop_last() + walk_prev(nodes, i),
    decreases nodes.len() - i,
{
    match nodes[i as int].next {
        None => {
            assert(walk_next(nodes, i) =~= seq![i]);
            assert(walk_next(nodes, i).reverse().drop_last() =~= Seq::<usize>::empty());
            assert(walk_prev(nodes, eos) =~= Seq::<usize>::empty() + walk_prev(nodes, i));
        },
        Some(j) => {
            lemma_chain_reversed(nodes, j, eos);
            let behind = walk_next(nodes, j);
            let here = walk_next(nodes, i);
            assert(here == seq![i] + behind);
            assert(walk_prev(nodes, j) == seq![j] + walk_prev(nodes, i));
            assert(here.reverse().drop_last() =~= behind.reverse());
            assert(behind.reverse() =~= behind.reverse().drop_last() + seq![j]);
            assert(walk_prev(nodes, eos) =~= here.reverse().drop_last() + walk_prev(nodes, i));
        },
    }
}

/// On every graph, the best path read from the end of the sentence is the
/// best path read from its beginning, in reverse order.
pub proof fn lemma_backward_is_forward_reversed(g: Graph)
    requires
        g.well_formed(),
    ensures
        g.backward() == g.forward().reverse(),
        g.forward().len() >= 2 || g.bos() == g.eos(),
        g.forward().first() == g.bos(),
        g.forward().last() == g.eos(),
{
    let nodes = g.nodes();
    lemma_chain_reversed(nodes, g.bos(), g.eos());
    lemma_chain_ends(nodes, g.bos(), g.eos());
    let f = g.forward();
    assert(walk_prev(nodes, g.bos()) =~= seq![g.bos()]);
    assert(f.reverse().drop_last() + seq![g.bos()] =~= f.reverse());
}

/// Following `next` along a chain starts at `i` and ends at `eos`, meets
/// only positions of the graph, and every position met but the last links to
/// the one met after it.
pub proof fn lemma_chain_ends(nodes: Seq<Node>, i: usize, eos: usize)
    requires
        chain_ok(nodes, i, eos),
    ensures
        walk_next(nodes, i).len() >= 1,
        walk_next(nodes, i).first() == i,
        walk_next(nodes, i).last() == eos,
        walk_next(nodes, i).len() >= 2 || i == eos,
        forall|k: int|
            0 <= k < walk_next(nodes, i).len() ==> i <= #[trigger] walk_next(nodes, i)[k]
                < nodes.len(),
        forall|k: int|
            0 <= k < walk_next(nodes, i).len() - 1 ==> nodes[(#[trigger] walk_next(
                nodes,
                i,
            )[k]) as int].next == Some(walk_next(nodes, i)[k + 1]),
    decreases nodes.len() - i,
{
    match nodes[i as int].next {
        None => {},
        Some(j) => {
            lemma_chain_ends(nodes, j, eos);
            let behind = walk_next(nodes, j);
            let here = walk_next(nodes, i);
            assert(here == seq![i] + behind);
            assert forall|k: int| 0 <= k < here.len() implies i <= #[trigger] here[k]
                < nodes.len() by {
                if k > 0 {
                    assert(here[k] == behind[k - 1]);
                }
            }
            assert forall|k: int| 0 <= k < here.len() - 1 implies nodes[(#[trigger] here[k]) as int].next
                == Some(here[k + 1]) by {
                if k > 0 {
                    assert(here[k] == behind[k - 1]);
                    assert(here[k + 1] == behind[k]);
                }
            }
        },
    }
}

} // verus!
