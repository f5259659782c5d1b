use mecab_wrapper::{
    Graph, Lattice, LatticeState, Node, NodeIter, NodeRevIter, NodeStatus, Path, RequestType,
};
use std::ops::ControlFlow;

fn chain(surfaces: &[&str]) -> Vec<Node> {
    let n = surfaces.len() + 2;
    let mut nodes = Vec::new();
    for i in 0..n {
        let (stat, surface) = if i == 0 {
            (2u8, "")
        } else if i == n - 1 {
            (3u8, "")
        } else {
            (0u8, surfaces[i - 1])
        };
        let mut node = Node::new(stat, surface.as_bytes().to_vec(), b"f".to_vec());
        node.id = i as u32;
        node.isbest = 1;
        node.prev = if i == 0 { None } else { Some(i - 1) };
        node.next = if i == n - 1 { None } else { Some(i + 1) };
        nodes.push(node);
    }
    nodes
}

fn hello_world() -> Graph {
    Graph::new(chain(&["hello", "world"]), Vec::new(), 0, 3).unwrap()
}

fn parsed(sentence: &str, graph: Graph) -> Lattice {
    let mut lattice = Lattice::new();
    lattice.set_sentence(sentence);
    assert!(lattice.accept_parse(Ok(graph)));
    lattice
}

#[test]
fn new_lattice_is_empty() {
    let lattice = Lattice::new();
    assert_eq!(lattice.current_state(), LatticeState::Empty);
    assert_eq!(lattice.get_request_type(), RequestType::one_best());
    assert_eq!(lattice.sentence_len(), 0);
    assert_eq!(lattice.sentence(), b"");
    assert_eq!(lattice.error(), b"");
    assert!(lattice.bos_node().is_none());
    assert!(lattice.eos_node().is_none());
    assert!(lattice.graph_ref().is_none());
    assert!(lattice.iter_nodes().next().is_none());
    assert!(lattice.iter_nodes_rev().next().is_none());
    let by_default = Lattice::default();
    assert_eq!(by_default.current_state(), LatticeState::Empty);
    assert_eq!(by_default.get_request_type().to_int(), 1);
}

#[test]
fn set_sentence_keeps_the_text() {
    let mut lattice = Lattice::new();
    lattice.set_sentence("すもも");
    assert_eq!(lattice.current_state(), LatticeState::SentenceSet);
    assert_eq!(lattice.sentence_len(), 9);
    assert_eq!(lattice.sentence(), "すもも".as_bytes());
    assert_eq!(lattice.sentence_str(), Ok("すもも"));
    assert!(lattice.bos_node().is_none());
    assert!(lattice.eos_node().is_none());
}

#[test]
fn hello_world_walk() {
    let lattice = parsed("hello world", hello_world());
    assert_eq!(lattice.current_state(), LatticeState::Parsed);
    let mut it = lattice.iter_nodes();
    let mut statuses = Vec::new();
    let mut surfaces = Vec::new();
    while let Some(node) = it.next() {
        statuses.push(node.status());
        surfaces.push(node.surface_str().unwrap().to_string());
    }
    assert_eq!(
        statuses,
        vec![NodeStatus::Bos, NodeStatus::Normal, NodeStatus::Normal, NodeStatus::Eos]
    );
    assert_eq!(surfaces, vec!["", "hello", "world", ""]);
    assert!(it.next().is_none());
    assert!(lattice.bos_node().unwrap().status().is_bos());
    assert!(lattice.eos_node().unwrap().status().is_eos());
    assert_eq!(lattice.bos_node().unwrap().id, 0);
    assert_eq!(lattice.eos_node().unwrap().id, 3);
}

#[test]
fn walk_is_restartable() {
    let lattice = parsed("hello world", hello_world());
    let first = lattice.iter_nodes().collect();
    let second = lattice.iter_nodes().collect();
    assert_eq!(first, vec![0, 1, 2, 3]);
    assert_eq!(first, second);
}

#[test]
fn reverse_walk_is_the_walk_reversed() {
    let lattice = parsed("a b c d", Graph::new(chain(&["a", "b", "c", "d"]), Vec::new(), 0, 5).unwrap());
    let forward = lattice.iter_nodes().collect();
    let mut backward = lattice.iter_nodes_rev().collect();
    assert_eq!(forward, vec![0, 1, 2, 3, 4, 5]);
    assert_eq!(backward, vec![5, 4, 3, 2, 1, 0]);
    backward.reverse();
    assert_eq!(forward, backward);
    let mut ids = Vec::new();
    let mut it = lattice.iter_nodes_rev();
    while let Some(node) = it.next() {
        ids.push(node.id);
    }
    assert_eq!(ids, vec![5, 4, 3, 2, 1, 0]);
}

#[test]
fn best_path_among_other_nodes() {
    // 0 bos, 1 "ab" (off the path), 2 "a", 3 "b", 4 eos
    let mut nodes = Vec::new();
    let mut bos = Node::new(2, Vec::new(), Vec::new());
    bos.next = Some(2);
    nodes.push(bos);
    let mut ab = Node::new(0, b"ab".to_vec(), Vec::new());
    ab.prev = Some(0);
    ab.next = Some(4);
    ab.lpath = Some(0);
    nodes.push(ab);
    let mut a = Node::new(0, b"a".to_vec(), Vec::new());
    a.prev = Some(0);
    a.next = Some(3);
    a.bnext = Some(1);
    nodes.push(a);
    let mut b = Node::new(1, b"b".to_vec(), Vec::new());
    b.prev = Some(2);
    b.next = Some(4);
    b.enext = Some(1);
    nodes.push(b);
    let mut eos = Node::new(3, Vec::new(), Vec::new());
    eos.prev = Some(3);
    nodes.push(eos);
    let paths =
        vec![Path { rnode: Some(1), rnext: None, lnode: Some(0), lnext: None, cost: -12 }];
    let graph = Graph::new(nodes, paths, 0, 4).unwrap();
    assert_eq!(graph.len(), 5);
    assert_eq!(graph.bos_position(), 0);
    assert_eq!(graph.eos_position(), 4);
    assert_eq!(graph.path(0).unwrap().cost, -12);
    assert_eq!(graph.path(0).unwrap().rnode(), Some(1));
    assert_eq!(graph.path(0).unwrap().lnode(), Some(0));
    assert_eq!(graph.path(0).unwrap().rnext(), None);
    assert_eq!(graph.path(0).unwrap().lnext(), None);
    assert!(graph.path(1).is_none());
    assert!(graph.node(5).is_none());
    assert_eq!(graph.node(2).unwrap().bnext(), Some(1));
    assert_eq!(NodeIter::from_node(&graph, 0).collect(), vec![0, 2, 3, 4]);
    assert_eq!(NodeRevIter::from_node(&graph, 4).collect(), vec![4, 3, 2, 0]);
    assert_eq!(NodeIter::from_node(&graph, 1).collect(), vec![1, 4]);
    assert_eq!(NodeRevIter::from_node(&graph, 1).collect(), vec![1, 0]);
    assert_eq!(NodeIter::from_node_option(&graph, Some(3)).collect(), vec![3, 4]);
    assert_eq!(NodeIter::from_node_option(&graph, None).collect(), Vec::<usize>::new());
    assert_eq!(NodeIter::from_node(&graph, 9).collect(), Vec::<usize>::new());
    assert_eq!(NodeRevIter::from_node_option(&graph, Some(9)).collect(), Vec::<usize>::new());
    assert!(NodeIter::none().get_node().is_none());
    assert!(NodeRevIter::none().get_node().is_none());
    assert_eq!(NodeIter::from_node(&graph, 3).get_node().unwrap().surface(), b"b");
    assert_eq!(NodeRevIter::from_node(&graph, 2).get_node().unwrap().surface(), b"a");
    assert_eq!(NodeIter::from_node(&graph, 3).position(), Some(3));
}

#[test]
fn graph_refuses_a_link_out_of_range() {
    let mut nodes = chain(&["x"]);
    nodes[1].enext = Some(3);
    assert!(Graph::new(nodes, Vec::new(), 0, 2).is_none());
    let mut nodes = chain(&["x"]);
    nodes[1].rpath = Some(0);
    assert!(Graph::new(nodes, Vec::new(), 0, 2).is_none());
    let paths = vec![Path { rnode: Some(3), rnext: None, lnode: None, lnext: None, cost: 0 }];
    assert!(Graph::new(chain(&["x"]), paths, 0, 2).is_none());
    let paths = vec![Path { rnode: Some(2), rnext: Some(1), lnode: None, lnext: None, cost: 0 }];
    assert!(Graph::new(chain(&["x"]), paths, 0, 2).is_none());
}

#[test]
fn graph_refuses_wrong_sentinels() {
    assert!(Graph::new(chain(&["x"]), Vec::new(), 1, 2).is_none());
    assert!(Graph::new(chain(&["x"]), Vec::new(), 0, 1).is_none());
    assert!(Graph::new(chain(&["x"]), Vec::new(), 0, 3).is_none());
    assert!(Graph::new(chain(&["x"]), Vec::new(), 3, 2).is_none());
    assert!(Graph::new(Vec::new(), Vec::new(), 0, 0).is_none());
    let mut nodes = chain(&["x"]);
    nodes[0].stat = 0;
    assert!(Graph::new(nodes, Vec::new(), 0, 2).is_none());
}

#[test]
fn graph_refuses_a_broken_chain() {
    // a step that its target does not answer
    let mut nodes = chain(&["x", "y"]);
    nodes[2].prev = Some(0);
    assert!(Graph::new(nodes, Vec::new(), 0, 3).is_none());
    // a chain that ends before the end of the sentence
    let mut nodes = chain(&["x", "y"]);
    nodes[1].next = None;
    assert!(Graph::new(nodes, Vec::new(), 0, 3).is_none());
    // a link that leads backwards
    let mut nodes = chain(&["x", "y"]);
    nodes[2].next = Some(1);
    assert!(Graph::new(nodes, Vec::new(), 0, 3).is_none());
    // a link to the node itself
    let mut nodes = chain(&["x", "y"]);
    nodes[1].prev = Some(1);
    assert!(Graph::new(nodes, Vec::new(), 0, 3).is_none());
    // a surface that is longer than its length says
    let mut nodes = chain(&["x", "y"]);
    nodes[1].length = 0;
    assert!(Graph::new(nodes, Vec::new(), 0, 3).is_none());
}

#[test]
fn parse_without_sentence_fails() {
    let mut lattice = Lattice::new();
    assert!(!lattice.accept_parse(Ok(hello_world())));
    assert_eq!(lattice.current_state(), LatticeState::Empty);
    assert!(lattice.bos_node().is_none());
    assert_eq!(lattice.error(), b"");
}

#[test]
fn failed_parse_without_sentence_stores_the_diagnostic() {
    let mut lattice = Lattice::new();
    assert!(!lattice.accept_parse(Err(b"no sentence".to_vec())));
    assert_eq!(lattice.current_state(), LatticeState::Empty);
    assert_eq!(lattice.error(), b"no sentence");
    assert_eq!(lattice.error_str(), Ok("no sentence"));
    assert!(lattice.bos_node().is_none());
    assert_eq!(lattice.get_request_type(), RequestType::one_best());
}

#[test]
fn failed_parse_stores_the_diagnostic() {
    let mut lattice = parsed("hello world", hello_world());
    assert!(!lattice.accept_parse(Err(b"too long sentence.".to_vec())));
    assert_eq!(lattice.current_state(), LatticeState::SentenceSet);
    assert_eq!(lattice.error(), b"too long sentence.");
    assert_eq!(lattice.error_str(), Ok("too long sentence."));
    assert!(lattice.bos_node().is_none());
    assert_eq!(lattice.sentence(), b"hello world");
}

#[test]
fn set_sentence_drops_the_graph() {
    let mut lattice = parsed("hello world", hello_world());
    lattice.set_sentence("again");
    assert_eq!(lattice.current_state(), LatticeState::SentenceSet);
    assert!(lattice.bos_node().is_none());
    assert!(lattice.eos_node().is_none());
    assert!(lattice.iter_nodes().collect().is_empty());
}

#[test]
fn clear_and_parse_again_gives_the_same_walk() {
    let mut lattice = parsed("hello world", hello_world());
    let first = lattice.iter_nodes().collect();
    lattice.add_request_type(RequestType::n_best());
    lattice.set_error(b"kept");
    lattice.clear();
    assert_eq!(lattice.current_state(), LatticeState::Empty);
    assert_eq!(lattice.sentence_len(), 0);
    assert!(lattice.bos_node().is_none());
    assert_eq!(lattice.get_request_type().to_int(), 3);
    assert_eq!(lattice.error(), b"kept");
    lattice.set_sentence("hello world");
    assert!(lattice.accept_parse(Ok(hello_world())));
    assert_eq!(lattice.iter_nodes().collect(), first);
}

#[test]
fn request_type_of_a_lattice() {
    let mut lattice = Lattice::new();
    lattice.add_request_type(RequestType::n_best());
    assert_eq!(lattice.get_request_type().to_int(), 3);
    lattice.add_request_type(RequestType::marginal_prob() | RequestType::n_best());
    assert_eq!(lattice.get_request_type().to_int(), 11);
    lattice.remove_request_type(RequestType::one_best() | RequestType::partial());
    assert_eq!(lattice.get_request_type().to_int(), 10);
    lattice.set_request_type(RequestType::all_morphs());
    assert_eq!(lattice.get_request_type(), RequestType::all_morphs());
    lattice.remove_request_type(RequestType::all_morphs());
    assert_eq!(lattice.get_request_type().to_int(), 0);
}

#[test]
fn next_nbest_needs_the_flag_and_a_parse() {
    let mut lattice = Lattice::new();
    lattice.add_request_type(RequestType::n_best());
    assert_eq!(lattice.next_nbest(Some(hello_world())), ControlFlow::Break(()));
    lattice.set_sentence("hello world");
    assert_eq!(lattice.next_nbest(Some(hello_world())), ControlFlow::Break(()));
    assert!(lattice.bos_node().is_none());

    let mut lattice = parsed("hello world", hello_world());
    let other = Graph::new(chain(&["hello world"]), Vec::new(), 0, 2).unwrap();
    assert_eq!(lattice.next_nbest(Some(other)), ControlFlow::Break(()));
    assert_eq!(lattice.iter_nodes().collect(), vec![0, 1, 2, 3]);
}

#[test]
fn next_nbest_enumerates_until_break() {
    let mut lattice = Lattice::new();
    lattice.add_request_type(RequestType::n_best());
    lattice.set_sentence("hello world");
    assert!(lattice.accept_parse(Ok(hello_world())));
    let other = Graph::new(chain(&["hello world"]), Vec::new(), 0, 2).unwrap();
    assert_eq!(lattice.next_nbest(Some(other)), ControlFlow::Continue(()));
    assert_eq!(lattice.current_state(), LatticeState::Parsed);
    assert_eq!(lattice.iter_nodes().collect(), vec![0, 1, 2]);
    assert_eq!(lattice.iter_nodes_rev().collect(), vec![2, 1, 0]);
    assert_eq!(lattice.next_nbest(None), ControlFlow::Break(()));
    assert_eq!(lattice.iter_nodes().collect(), vec![0, 1, 2]);
}

#[test]
fn error_slot() {
    let mut lattice = Lattice::new();
    lattice.set_error(b"oops");
    assert_eq!(lattice.error(), b"oops");
    assert_eq!(lattice.error_str(), Ok("oops"));
    lattice.set_error(&[0xfe]);
    assert!(lattice.error_str().is_err());
    assert_eq!(lattice.error(), &[0xfe]);
    assert_eq!(lattice.current_state(), LatticeState::Empty);
}

#[test]
fn surfaces_along_the_best_path() {
    assert_eq!(hello_world().best_surfaces(), b"helloworld".to_vec());
    let one = Graph::new(chain(&[]), Vec::new(), 0, 1).unwrap();
    assert_eq!(one.best_surfaces(), Vec::<u8>::new());
    let text = Graph::new(chain(&["すもも", "も", "もも"]), Vec::new(), 0, 4).unwrap();
    assert_eq!(text.best_surfaces(), "すももももも".as_bytes().to_vec());
}

#[test]
fn surfaces_reconstruct_a_sentence_without_blanks() {
    let lattice = parsed("helloworld", hello_world());
    assert!(lattice.surfaces_reconstruct_sentence());
    let lattice = parsed("すももももも", Graph::new(chain(&["すもも", "も", "もも"]), Vec::new(), 0, 4).unwrap());
    assert!(lattice.surfaces_reconstruct_sentence());
    let lattice = parsed("", Graph::new(chain(&[]), Vec::new(), 0, 1).unwrap());
    assert!(lattice.surfaces_reconstruct_sentence());
}

#[test]
fn surfaces_leave_out_the_blanks_of_a_sentence() {
    let lattice = parsed("hello world", hello_world());
    assert!(!lattice.surfaces_reconstruct_sentence());
    let mut unparsed = Lattice::new();
    assert!(!unparsed.surfaces_reconstruct_sentence());
    unparsed.set_sentence("");
    assert!(!unparsed.surfaces_reconstruct_sentence());
}

#[test]
fn sentence_from_bytes_that_are_no_text() {
    let mut lattice = parsed("hello world", hello_world());
    lattice.set_sentence_bytes(&[0x93, 0xfa, 0x96, 0x7b]);
    assert_eq!(lattice.current_state(), LatticeState::SentenceSet);
    assert_eq!(lattice.sentence(), &[0x93, 0xfa, 0x96, 0x7b]);
    assert_eq!(lattice.sentence_len(), 4);
    assert!(lattice.sentence_str().is_err());
    assert!(lattice.bos_node().is_none());
    lattice.set_sentence_bytes(b"abc");
    assert_eq!(lattice.sentence_str(), Ok("abc"));
}

#[test]
fn nodes_are_the_same_by_position() {
    // two nodes with the same contents at two positions
    let graph = Graph::new(chain(&["a", "a"]), Vec::new(), 0, 3).unwrap();
    assert!(graph.same_node(1, 1));
    assert!(graph.same_node(0, 0));
    assert!(graph.same_node(3, 3));
    assert!(!graph.same_node(1, 2));
    assert!(!graph.same_node(2, 1));
    assert!(!graph.same_node(4, 4));
    assert_eq!(graph.node(1).unwrap().surface(), graph.node(2).unwrap().surface());
    let forward = NodeIter::from_node(&graph, 1);
    let backward = NodeRevIter::from_node(&graph, 1);
    assert!(graph.same_node(forward.position().unwrap(), backward.position().unwrap()));
    assert!(std::ptr::eq(forward.get_node().unwrap(), backward.get_node().unwrap()));
    assert!(!std::ptr::eq(graph.node(1).unwrap(), graph.node(2).unwrap()));
}
