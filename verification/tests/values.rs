use mecab_wrapper::request_type::{
    ALL_FLAGS, ALL_MORPHS, ALLOC_SENTENCE, ALTERNATIVE, MARGINAL_PROB, N_BEST, ONE_BEST, PARTIAL,
};
use mecab_wrapper::{
    global_error_str, Attribute, Boundary, DictionaryInfo, DictionaryType, Node, NodeStatus,
    RequestType,
};
use std::ops::{BitAndAssign, BitOrAssign, BitXorAssign};

#[test]
fn request_type_flags() {
    assert_eq!(RequestType::one_best().to_int(), 1);
    assert_eq!(RequestType::n_best().to_int(), 2);
    assert_eq!(RequestType::partial().to_int(), 4);
    assert_eq!(RequestType::marginal_prob().to_int(), 8);
    assert_eq!(RequestType::alternative().to_int(), 16);
    assert_eq!(RequestType::all_morphs().to_int(), 32);
    assert_eq!(RequestType::alloc_sentence().to_int(), 64);
    assert_eq!(
        ONE_BEST | N_BEST | PARTIAL | MARGINAL_PROB | ALTERNATIVE | ALL_MORPHS | ALLOC_SENTENCE,
        ALL_FLAGS
    );
}

#[test]
fn request_type_int_round_trip() {
    for n in 0..=255u8 {
        assert_eq!(RequestType::from_int(n).to_int(), n);
    }
}

#[test]
fn request_type_operators() {
    let a = RequestType::from_int(0b0101);
    let b = RequestType::from_int(0b0110);
    assert_eq!((a & b).to_int(), 0b0100);
    assert_eq!((a | b).to_int(), 0b0111);
    assert_eq!((a ^ b).to_int(), 0b0011);
    assert_eq!((!a).to_int(), 0b0111_1010);
    assert_eq!((!RequestType::from_int(0)).to_int(), 127);
    assert_eq!((!RequestType::from_int(127)).to_int(), 0);
    assert_eq!((!RequestType::from_int(128)).to_int(), 255);
}

#[test]
fn request_type_assign_operators() {
    let mut r = RequestType::from_int(0b0101);
    r &= RequestType::from_int(0b0110);
    assert_eq!(r.to_int(), 0b0100);
    r |= RequestType::from_int(0b0011);
    assert_eq!(r.to_int(), 0b0111);
    r ^= RequestType::from_int(0b0101);
    assert_eq!(r.to_int(), 0b0010);
    let mut s = RequestType::one_best();
    s.bitor_assign(RequestType::n_best());
    s.bitand_assign(RequestType::n_best());
    s.bitxor_assign(RequestType::partial());
    assert_eq!(s, RequestType::from_int(6));
}

#[test]
fn request_type_contains() {
    let r = RequestType::n_best() | RequestType::marginal_prob();
    assert!(r.contains(RequestType::n_best()));
    assert!(r.contains(RequestType::marginal_prob()));
    assert!(r.contains(r));
    assert!(!r.contains(RequestType::one_best()));
    assert!(!r.contains(RequestType::n_best() | RequestType::one_best()));
    assert!(r.contains(RequestType::from_int(0)));
}

#[test]
fn node_status_codes() {
    assert_eq!(NodeStatus::from_code(0), NodeStatus::Normal);
    assert_eq!(NodeStatus::from_code(1), NodeStatus::Unknown);
    assert_eq!(NodeStatus::from_code(2), NodeStatus::Bos);
    assert_eq!(NodeStatus::from_code(3), NodeStatus::Eos);
    assert_eq!(NodeStatus::from_code(4), NodeStatus::EoNbest);
    assert_eq!(NodeStatus::from_code(255), NodeStatus::EoNbest);
}

#[test]
fn node_status_predicates() {
    assert!(NodeStatus::Normal.is_normal());
    assert!(!NodeStatus::Normal.is_unknown());
    assert!(NodeStatus::Unknown.is_unknown());
    assert!(!NodeStatus::Unknown.is_bos());
    assert!(NodeStatus::Bos.is_bos());
    assert!(!NodeStatus::Bos.is_eos());
    assert!(NodeStatus::Eos.is_eos());
    assert!(!NodeStatus::Eos.is_eon());
    assert!(NodeStatus::EoNbest.is_eon());
    assert!(!NodeStatus::EoNbest.is_normal());
}

#[test]
fn node_fields_and_texts() {
    let mut node = Node::new(1, "東京".as_bytes().to_vec(), b"a,b".to_vec());
    assert_eq!(node.status(), NodeStatus::Unknown);
    assert_eq!(node.surface_len(), 6);
    assert_eq!(node.length, 6);
    assert_eq!(node.surface(), "東京".as_bytes());
    assert_eq!(node.surface_str(), Ok("東京"));
    assert_eq!(node.features(), b"a,b");
    assert_eq!(node.features_str(), Ok("a,b"));
    assert!(!node.is_best());
    assert_eq!(node.next(), None);
    assert_eq!(node.prev(), None);
    assert_eq!(node.enext(), None);
    assert_eq!(node.bnext(), None);
    assert_eq!(node.rpath(), None);
    assert_eq!(node.lpath(), None);
    assert_eq!(node.rattr, Attribute(0));
    node.isbest = 1;
    node.next = Some(3);
    node.bnext = Some(2);
    assert!(node.is_best());
    assert_eq!(node.next(), Some(3));
    assert_eq!(node.bnext(), Some(2));
    assert!(node.check(4, 0));
    assert!(!node.check(3, 0));
    node.isbest = 2;
    assert!(!node.is_best());
}

#[test]
fn node_invalid_utf8_texts() {
    let node = Node::new(0, vec![0xff, 0x41], vec![0xc3]);
    assert!(node.surface_str().is_err());
    assert!(node.features_str().is_err());
    assert_eq!(node.surface(), &[0xff, 0x41]);
    assert_eq!(node.features(), &[0xc3]);
}

#[test]
fn node_feature_reader() {
    let node = Node::new(0, b"x".to_vec(), b"noun,common,*".to_vec());
    let mut reader = node.feature_reader();
    let feats = reader.features().unwrap();
    assert_eq!(feats.len(), 3);
    assert_eq!(feats.get(0).unwrap().as_bytes(), b"noun");
    assert_eq!(feats.get(2).unwrap().as_bytes(), b"*");
}

#[test]
fn node_surface_length_mismatch_is_refused() {
    let mut node = Node::new(0, b"abc".to_vec(), Vec::new());
    assert!(node.check(1, 0));
    node.length = 2;
    assert!(!node.check(1, 0));
}

#[test]
fn boundary_codes() {
    assert_eq!(Boundary::from_code(0), Boundary::NotSpecified);
    assert_eq!(Boundary::from_code(1), Boundary::Token);
    assert_eq!(Boundary::from_code(2), Boundary::InsideToken);
    assert_eq!(Boundary::from_code(3), Boundary::NotSpecified);
    assert_eq!(Boundary::from_code(-1), Boundary::NotSpecified);
    assert_eq!(Boundary::NotSpecified.to_code(), 0);
    assert_eq!(Boundary::Token.to_code(), 1);
    assert_eq!(Boundary::InsideToken.to_code(), 2);
}

#[test]
fn boundary_code_round_trip() {
    for b in [Boundary::NotSpecified, Boundary::Token, Boundary::InsideToken] {
        assert_eq!(Boundary::from_code(b.to_code()), b);
    }
}

#[test]
fn dictionary_type_codes() {
    assert_eq!(DictionaryType::from_code(0), DictionaryType::System);
    assert_eq!(DictionaryType::from_code(1), DictionaryType::User);
    assert_eq!(DictionaryType::from_code(2), DictionaryType::UnknownWord);
    assert_eq!(DictionaryType::from_code(-7), DictionaryType::UnknownWord);
}

#[test]
fn dictionary_info_list() {
    let unk = DictionaryInfo {
        filename: b"unk.dic".to_vec(),
        charset: b"UTF-8".to_vec(),
        size: 40,
        type_code: 2,
        lsize: 10,
        rsize: 11,
        version: 102,
        next: None,
    };
    let sys = DictionaryInfo {
        filename: b"sys.dic".to_vec(),
        charset: b"EUC-JP".to_vec(),
        size: 392126,
        type_code: 0,
        lsize: 1316,
        rsize: 1316,
        version: 102,
        next: Some(Box::new(unk)),
    };
    assert_eq!(sys.filename(), b"sys.dic");
    assert_eq!(sys.charset(), b"EUC-JP");
    assert_eq!(sys.dictionary_type(), DictionaryType::System);
    let next = sys.next().unwrap();
    assert_eq!(next.filename(), b"unk.dic");
    assert_eq!(next.charset(), b"UTF-8");
    assert_eq!(next.dictionary_type(), DictionaryType::UnknownWord);
    assert!(next.next().is_none());
}

#[test]
fn global_error_text() {
    assert_eq!(global_error_str(b"no such file or directory"), Ok("no such file or directory"));
    assert_eq!(global_error_str(b""), Ok(""));
    assert!(global_error_str(&[0x80]).is_err());
}
