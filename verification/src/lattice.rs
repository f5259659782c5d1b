//! The lattice: the sentence, the request flags, the diagnostic and, after a
//! successful parse, the graph of one analysed sentence.
use crate::graph::{lemma_backward_is_forward_reversed, Graph};
use crate::node::Node;
use crate::node_iter::{NodeIter, NodeRevIter};
use crate::request_type::{RequestType, N_BEST, ONE_BEST};
use crate::text::{decodes, str_from_utf8};
use std::ops::ControlFlow;
use std::ops::{BitAnd, BitOr};
use std::str::Utf8Error;
use vstd::prelude::*;
use vstd::slice::slice_to_vec;
use vstd::string::StringSliceAdditionalSpecFns;

verus! {

/// Constraint on a byte offset of the sentence.
#[derive(Debug, Clone, Copy, PartialEq, Eq, Structural)]
pub enum Boundary {
    /// The token boundary is not specified.
    NotSpecified,
    /// The position is a strong token boundary.
    Token,
    /// The position is not a token boundary.
    InsideToken,
}

impl Boundary {
    /// The constraint that a code stands for: 1 a token boundary, 2 the
    /// inside of a token, every other code no constraint.
    pub open spec fn of_code(code: i32) -> Boundary {
        if code == 1 {
            Boundary::Token
        } else if code == 2 {
            Boundary::InsideToken
        } else {
            Boundary::NotSpecified
        }
    }

    /// The code of the constraint.
    pub open spec fn code(self) -> i32 {
        match self {
            Boundary::NotSpecified => 0,
            Boundary::Token => 1,
            Boundary::InsideToken => 2,
        }
    }

    /// Decodes a constraint.
    pub fn from_code(code: i32) -> (b: Boundary)
        ensures
            b == Boundary::of_code(code),
    {
        match code {
            1 => Boundary::Token,
            2 => Boundary::InsideToken,
            _ => Boundary::NotSpecified,
        }
    }

    /// Encodes the constraint.
    pub fn to_code(self) -> (code: i32)
        ensures
            code == self.code(),
    {
        match self {
            Boundary::NotSpecified => 0,
            Boundary::Token => 1,
            Boundary::InsideToken => 2,
        }
    }

    /// Decoding the code of a constraint gives the constraint back.
    pub proof fn lemma_code_round_trip(self)
        ensures
            Boundary::of_code(self.code()) == self,
    {
    }
}

/// Where a lattice stands in its life.
#[derive(Debug, Clone, Copy, PartialEq, Eq, Structural)]
pub enum LatticeState {
    /// No sentence is set.
    Empty,
    /// A sentence is set and not parsed.
    SentenceSet,
    /// The sentence is parsed: the lattice holds its graph.
    Parsed,
}

/// What a lattice holds, as mathematical values.
pub struct LatticeView {
    /// The sentence, where one is set.
    pub sentence: Option<Seq<u8>>,
    /// The request flags.
    pub request: RequestType,
    /// The graph, where the sentence is parsed.
    pub graph: Option<Graph>,
    /// The diagnostic.
    pub diagnostic: Seq<u8>,
}

impl LatticeView {
    /// Where the lattice stands in its life.
    pub open spec fn state(self) -> LatticeState {
        if self.graph is Some {
            LatticeState::Parsed
        } else if self.sentence is Some {
            LatticeState::SentenceSet
        } else {
            LatticeState::Empty
        }
    }

    /// A graph is held only for a sentence, and every graph held is well
    /// formed.
    pub open spec fn well_formed(self) -> bool {
        &&& self.graph is Some ==> self.sentence is Some
        &&& self.graph matches Some(g) ==> g.well_formed()
    }

    /// The empty lattice with the request for the one best path.
    pub open spec fn empty() -> LatticeView {
        LatticeView {
            sentence: None,
            request: RequestType(ONE_BEST),
            graph: None,
            diagnostic: Seq::empty(),
        }
    }

    /// The lattice after a sentence is set: the graph is dropped.
    pub open spec fn with_sentence(self, sentence: Seq<u8>) -> LatticeView {
        LatticeView {
            sentence: Some(sentence),
            request: self.request,
            graph: None,
            diagnostic: self.diagnostic,
        }
    }

    /// The lattice after it is cleared: the sentence and the graph are
    /// dropped.
    pub open spec fn cleared(self) -> LatticeView {
        LatticeView {
            sentence: None,
            request: self.request,
            graph: None,
            diagnostic: self.diagnostic,
        }
    }

    /// The lattice with other request flags.
    pub open spec fn with_request(self, request: RequestType) -> LatticeView {
        LatticeView {
            sentence: self.sentence,
            request,
            graph: self.graph,
            diagnostic: self.diagnostic,
        }
    }

    /// The lattice with another diagnostic.
    pub open spec fn with_diagnostic(self, diagnostic: Seq<u8>) -> LatticeView {
        LatticeView {
            sentence: self.sentence,
            request: self.request,
            graph: self.graph,
            diagnostic,
        }
    }

    /// The lattice after the outcome of a parse is taken in. A failure
    /// drops the graph held and leaves its diagnostic, with or without a
    /// sentence. A graph is kept where a sentence is set; without a sentence
    /// nothing can be parsed, and the lattice stays as it is.
    pub open spec fn parsed(self, outcome: Result<Graph, Seq<u8>>) -> LatticeView {
        match outcome {
            Ok(g) => if self.sentence is None {
                self
            } else {
                LatticeView {
                    sentence: self.sentence,
                    request: self.request,
                    graph: Some(g),
                    diagnostic: self.diagnostic,
                }
            },
            Err(e) => LatticeView {
                sentence: self.sentence,
                request: self.request,
                graph: None,
                diagnostic: e,
            },
        }
    }

    /// Whether a step to the next-best path can be taken: the sentence is
    /// parsed and the N-best flag is set.
    pub open spec fn enumerates(self) -> bool {
        self.graph is Some && self.request.has(RequestType(N_BEST))
    }

    /// The lattice after the outcome of a step to the next-best path is taken
    /// in: a graph replaces the one held where a step can be taken.
    pub open spec fn stepped(self, next: Option<Graph>) -> LatticeView {
        if self.enumerates() && next is Some {
            LatticeView {
                sentence: self.sentence,
                request: self.request,
                graph: next,
                diagnostic: self.diagnostic,
            }
        } else {
            self
        }
    }

    /// The positions of the best path from the beginning of the sentence;
    /// empty before a successful parse.
    pub open spec fn walk(self) -> Seq<usize> {
        match self.graph {
            Some(g) => g.forward(),
            None => Seq::empty(),
        }
    }

    /// Whether the surfaces along the best path, one after another, are the
    /// sentence.
    pub open spec fn reconstructs(self) -> bool {
        match self.graph {
            Some(g) => self.sentence == Some(g.surface_text()),
            None => false,
        }
    }

    /// The positions of the best path from the end of the sentence; empty
    /// before a successful parse.
    pub open spec fn walk_rev(self) -> Seq<usize> {
        match self.graph {
            Some(g) => g.backward(),
            None => Seq::empty(),
        }
    }
}

/// Whatever a lattice held before, once it is cleared, given a sentence and
/// a graph as the outcome of the parse, it is parsed, holds that sentence and
/// walks the best path of that graph; its surfaces give the sentence back
/// exactly when those of the graph do.
pub proof fn lemma_parse_after_clear(before: LatticeView, sentence: Seq<u8>, g: Graph)
    ensures
        before.cleared().state() == LatticeState::Empty,
        before.cleared().with_sentence(sentence).state() == LatticeState::SentenceSet,
        before.cleared().with_sentence(sentence).parsed(Ok(g)).state() == LatticeState::Parsed,
        before.cleared().with_sentence(sentence).parsed(Ok(g)).sentence == Some(sentence),
        before.cleared().with_sentence(sentence).parsed(Ok(g)).walk() == g.forward(),
        before.cleared().with_sentence(sentence).parsed(Ok(g)).walk_rev() == g.backward(),
        before.cleared().with_sentence(sentence).parsed(Ok(g)).reconstructs() == (g.surface_text()
            == sentence),
{
}

/// On every well-formed lattice, the walk from the end of the sentence is
/// the walk from its beginning in reverse order.
pub proof fn lemma_walks_mirror(v: LatticeView)
    requires
        v.well_formed(),
    ensures
        v.walk_rev() == v.walk().reverse(),
{
    match v.graph {
        Some(g) => {
            lemma_backward_is_forward_reversed(g);
        },
        None => {
            assert(Seq::<usize>::empty().reverse() =~= Seq::<usize>::empty());
        },
    }
}

/// Every step of the life of a lattice keeps it well formed. A lattice
/// without a sentence stays without one whatever the parse gave; with a
/// sentence it is parsed exactly after a successful parse. A failed parse
/// always leaves its diagnostic and no graph; a successful one leaves the
/// diagnostic as it was.
pub proof fn lemma_steps_keep_well_formed(
    v: LatticeView,
    sentence: Seq<u8>,
    outcome: Result<Graph, Seq<u8>>,
    next: Option<Graph>,
)
    requires
        v.well_formed(),
        outcome matches Ok(g) ==> g.well_formed(),
        next matches Some(g) ==> g.well_formed(),
    ensures
        LatticeView::empty().well_formed(),
        LatticeView::empty().state() == LatticeState::Empty,
        v.with_sentence(sentence).well_formed(),
        v.cleared().well_formed(),
        v.parsed(outcome).well_formed(),
        v.stepped(next).well_formed(),
        v.stepped(next).state() == v.state(),
        v.state() == LatticeState::Empty ==> v.parsed(outcome).state() == LatticeState::Empty,
        outcome matches Ok(g) ==> v.parsed(outcome).diagnostic == v.diagnostic,
        outcome matches Err(e) ==> v.parsed(outcome).diagnostic == e && v.parsed(outcome).graph
            is None,
        v.state() != LatticeState::Empty ==> (v.parsed(outcome).state() == LatticeState::Parsed
            <==> outcome is Ok),
{
}

/// Tests whether two byte strings are equal.
fn same_bytes(a: &[u8], b: &[u8]) -> (r: bool)
    ensures
        r == (a@ == b@),
{
    if a.len() != b.len() {
        return false;
    }
    let n: usize = a.len();
    let mut i: usize = 0;
    while i < n
        invariant
            n == a@.len(),
            n == b@.len(),
            i <= n,
            a@.subrange(0, i as int) == b@.subrange(0, i as int),
        decreases n - i,
    {
        if a[i] != b[i] {
            assert(a@[i as int] != b@[i as int]);
            return false;
        }
        i = i + 1;
        assert(a@.subrange(0, i as int) =~= a@.subrange(0, i - 1).push(a@[i - 1]));
        assert(b@.subrange(0, i as int) =~= b@.subrange(0, i - 1).push(b@[i - 1]));
    }
    assert(a@.subrange(0, n as int) =~= a@);
    assert(b@.subrange(0, n as int) =~= b@);
    true
}

/// The analysis state of one sentence.
#[derive(Debug)]
pub struct Lattice {
    sentence: Option<Vec<u8>>,
    request: RequestType,
    graph: Option<Graph>,
    error: Vec<u8>,
}

impl View for Lattice {
    type V = LatticeView;

    closed spec fn view(&self) -> LatticeView {
        LatticeView {
            sentence: match self.sentence {
                Some(s) => Some(s@),
                None => None,
            },
            request: self.request,
            graph: self.graph,
            diagnostic: self.error@,
        }
    }
}

impl Lattice {
    /// A graph is held only for a sentence.
    #[verifier::type_invariant]
    spec fn sound(&self) -> bool {
        self.graph is Some ==> self.sentence is Some
    }

    /// An empty lattice: no sentence, the request for the one best path, no
    /// diagnostic.
    pub fn new() -> (l: Lattice)
        ensures
            l@ == LatticeView::empty(),
    {
        Lattice {
            sentence: None,
            request: RequestType::one_best(),
            graph: None,
            error: Vec::new(),
        }
    }

    /// Where the lattice stands in its life.
    pub fn current_state(&self) -> (s: LatticeState)
        ensures
            s == self@.state(),
            self@.well_formed(),
    {
        proof {
            use_type_invariant(self);
        }
        match &self.graph {
            Some(g) => {
                let _ = g.len();
                LatticeState::Parsed
            },
            None => {
                if self.sentence.is_some() {
                    LatticeState::SentenceSet
                } else {
                    LatticeState::Empty
                }
            },
        }
    }

    /// The length of the sentence in bytes; 0 where none is set.
    pub fn sentence_len(&self) -> (n: usize)
        ensures
            n == match self@.sentence {
                Some(s) => s.len(),
                None => 0,
            },
    {
        match &self.sentence {
            Some(s) => s.len(),
            None => 0,
        }
    }

    /// The sentence; empty where none is set.
    pub fn sentence(&self) -> (s: &[u8])
        ensures
            s@ == match self@.sentence {
                Some(s) => s,
                None => Seq::empty(),
            },
    {
        match &self.sentence {
            Some(s) => s.as_slice(),
            None => {
                let empty: &'static [u8; 0] = &[];
                let e = empty.as_slice();
                assert(e@ =~= Seq::<u8>::empty());
                e
            },
        }
    }

    /// The sentence as text: an error exactly when it is no UTF-8.
    pub fn sentence_str(&self) -> (r: Result<&str, Utf8Error>)
        ensures
            decodes(
                match self@.sentence {
                    Some(s) => s,
                    None => Seq::empty(),
                },
                r,
            ),
    {
        str_from_utf8(self.sentence())
    }

    /// Sets the sentence. The graph of an earlier sentence is dropped; the
    /// request flags and the diagnostic stay.
    pub fn set_sentence(&mut self, sentence: &str)
        ensures
            final(self)@ == old(self)@.with_sentence(sentence.spec_bytes()),
    {
        self.set_sentence_bytes(sentence.as_bytes());
    }

    /// Sets the sentence from its bytes, which need not be text. The graph
    /// of an earlier sentence is dropped; the request flags and the
    /// diagnostic stay.
    pub fn set_sentence_bytes(&mut self, sentence: &[u8])
        ensures
            final(self)@ == old(self)@.with_sentence(sentence@),
    {
        self.graph = None;
        self.sentence = Some(slice_to_vec(sentence));
    }

    /// The node of the beginning of the sentence; `None` before a successful
    /// parse.
    pub fn bos_node(&self) -> (r: Option<&Node>)
        ensures
            r == match self@.graph {
                Some(g) => Some(&g.nodes()[g.bos() as int]),
                None => None,
            },
    {
        match &self.graph {
            Some(g) => g.node(g.bos_position()),
            None => None,
        }
    }

    /// The node of the end of the sentence; `None` before a successful parse.
    pub fn eos_node(&self) -> (r: Option<&Node>)
        ensures
            r == match self@.graph {
                Some(g) => Some(&g.nodes()[g.eos() as int]),
                None => None,
            },
    {
        match &self.graph {
            Some(g) => g.node(g.eos_position()),
            None => None,
        }
    }

    /// The graph; `None` before a successful parse.
    pub fn graph_ref(&self) -> (r: Option<&Graph>)
        ensures
            r == match self@.graph {
                Some(g) => Some(&g),
                None => None,
            },
            self@.well_formed(),
    {
        proof {
            use_type_invariant(self);
        }
        match &self.graph {
            Some(g) => {
                let _ = g.len();
                Some(g)
            },
            None => None,
        }
    }

    /// A cursor over the best path, from the beginning of the sentence.
    pub fn iter_nodes(&self) -> (it: NodeIter<'_>)
        ensures
            it.remaining() == self@.walk(),
    {
        NodeIter::from_bos(self)
    }

    /// A cursor over the best path, from the end of the sentence.
    pub fn iter_nodes_rev(&self) -> (it: NodeRevIter<'_>)
        ensures
            it.remaining() == self@.walk_rev(),
            it.remaining() == self@.walk().reverse(),
    {
        let it = NodeRevIter::from_eos(self);
        proof {
            lemma_walks_mirror(self@);
        }
        it
    }

    /// Whether the sentence is parsed and the surfaces along the best path,
    /// one after another, are the sentence.
    pub fn surfaces_reconstruct_sentence(&self) -> (b: bool)
        ensures
            b == self@.reconstructs(),
    {
        match (&self.graph, &self.sentence) {
            (Some(g), Some(s)) => {
                let text = g.best_surfaces();
                same_bytes(text.as_slice(), s.as_slice())
            },
            (Some(g), None) => false,
            (None, _) => false,
        }
    }

    /// The request flags.
    pub fn get_request_type(&self) -> (r: RequestType)
        ensures
            r == self@.request,
    {
        self.request
    }

    /// Replaces the request flags.
    pub fn set_request_type(&mut self, req: RequestType)
        ensures
            final(self)@ == old(self)@.with_request(req),
    {
        proof {
            use_type_invariant(&*self);
        }
        self.request = req;
    }

    /// Adds the flags of `req` to the request flags.
    pub fn add_request_type(&mut self, req: RequestType)
        ensures
            final(self)@ == old(self)@.with_request(
                RequestType(old(self)@.request.bits() | req.bits()),
            ),
    {
        proof {
            use_type_invariant(&*self);
        }
        self.request = self.request.bitor(req);
    }

    /// Takes the flags of `req` out of the request flags.
    pub fn remove_request_type(&mut self, req: RequestType)
        ensures
            final(self)@ == old(self)@.with_request(
                RequestType(old(self)@.request.bits() & !req.bits()),
            ),
    {
        proof {
            use_type_invariant(&*self);
        }
        let kept: u8 = !req.to_int();
        self.request = self.request.bitand(RequestType::from_int(kept));
    }

    /// Takes in the outcome of a parse of the sentence, and reports whether
    /// the sentence is parsed now. A failure drops the graph of an earlier
    /// parse and stores its diagnostic, with or without a sentence. A graph
    /// is kept where a sentence is set; without one nothing can be parsed,
    /// and the lattice stays as it is.
    pub fn accept_parse(&mut self, outcome: Result<Graph, Vec<u8>>) -> (parsed: bool)
        ensures
            final(self)@ == old(self)@.parsed(
                match outcome {
                    Ok(g) => Ok(g),
                    Err(e) => Err(e@),
                },
            ),
            parsed == (old(self)@.sentence is Some && outcome is Ok),
    {
        proof {
            use_type_invariant(&*self);
        }
        match outcome {
            Ok(g) => {
                if self.sentence.is_none() {
                    return false;
                }
                self.graph = Some(g);
                true
            },
            Err(e) => {
                self.graph = None;
                self.error = e;
                false
            },
        }
    }

    /// Takes in the outcome of a step to the next-best path. On a parsed
    /// lattice with the N-best flag, a graph replaces the one held and the
    /// enumeration continues; in every other case the enumeration breaks and
    /// the lattice stays as it is.
    pub fn next_nbest(&mut self, next: Option<Graph>) -> (r: ControlFlow<(), ()>)
        ensures
            final(self)@ == old(self)@.stepped(next),
            r is Continue <==> (old(self)@.enumerates() && next is Some),
    {
        proof {
            use_type_invariant(&*self);
        }
        if self.graph.is_none() || !self.request.contains(RequestType::n_best()) {
            return ControlFlow::Break(());
        }
        match next {
            Some(g) => {
                self.graph = Some(g);
                ControlFlow::Continue(())
            },
            None => ControlFlow::Break(()),
        }
    }

    /// Returns the lattice to the empty state: the sentence and the graph
    /// are dropped; the request flags and the diagnostic stay.
    pub fn clear(&mut self)
        ensures
            final(self)@ == old(self)@.cleared(),
    {
        self.graph = None;
        self.sentence = None;
    }

    /// The diagnostic of the lattice.
    pub fn error(&self) -> (e: &[u8])
        ensures
            e@ == self@.diagnostic,
    {
        self.error.as_slice()
    }

    /// The diagnostic as text: an error exactly when it is no UTF-8.
    pub fn error_str(&self) -> (r: Result<&str, Utf8Error>)
        ensures
            decodes(self@.diagnostic, r),
    {
        str_from_utf8(self.error.as_slice())
    }

    /// Replaces the diagnostic of the lattice.
    pub fn set_error(&mut self, e: &[u8])
        ensures
            final(self)@ == old(self)@.with_diagnostic(e@),
    {
        proof {
            use_type_invariant(&*self);
        }
        self.error = slice_to_vec(e);
    }
}

impl Default for Lattice {
    /// The empty lattice.
    fn default() -> (l: Lattice)
        ensures
            l@ == LatticeView::empty(),
    {
        Lattice::new()
    }
}

} // verus!
