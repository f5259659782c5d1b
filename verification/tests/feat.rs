use mecab_wrapper::{Feature, FeatureReader};

#[test]
fn features_of_three_fields() {
    let mut reader = FeatureReader::from_features(b"a,b,c");
    let feats = reader.features().unwrap();
    let all = feats.iter();
    assert_eq!(all.len(), 3);
    assert_eq!(all[0], Feature::from_inner(b"a"));
    assert_eq!(all[1], Feature::from_inner(b"b"));
    assert_eq!(all[2], Feature::from_inner(b"c"));
}

#[test]
fn features_is_empty() {
    let mut reader = FeatureReader::from_features(b"");
    let feats = reader.features().unwrap();
    assert!(feats.is_empty());
    assert_eq!(feats.len(), 0);
    assert_eq!(feats.get(0), None);

    let mut reader = FeatureReader::from_features(b"a,b,c");
    let feats = reader.features().unwrap();
    assert!(!feats.is_empty());
}

#[test]
fn features_len() {
    let mut reader = FeatureReader::from_features(b"a,b,c");
    let feats = reader.features().unwrap();
    assert_eq!(feats.len(), 3);
}

#[test]
fn features_get() {
    let mut reader = FeatureReader::from_features(b"a,b,c");
    let feats = reader.features().unwrap();
    assert_eq!(feats.get(0), Some(Feature::from_inner(b"a")));
    assert_eq!(feats.get(1), Some(Feature::from_inner(b"b")));
    assert_eq!(feats.get(2), Some(Feature::from_inner(b"c")));
    assert_eq!(feats.get(3), None);
}

#[test]
fn features_round_trip_every_field() {
    let raw = "名詞,固有名詞,地域,一般,*,*,東京,トウキョウ,トーキョー";
    let fields: Vec<&str> = raw.split(',').collect();
    let mut reader = FeatureReader::from_features(raw.as_bytes());
    let feats = reader.features().unwrap();
    assert_eq!(feats.len(), 9);
    for i in 0..feats.len() {
        assert_eq!(feats.get(i).unwrap().as_bytes(), fields[i].as_bytes());
        assert_eq!(feats.get(i).unwrap().as_str(), Ok(fields[i]));
        assert_eq!(feats.index(i), fields[i].as_bytes());
    }
    assert_eq!(feats.get(feats.len()), None);
}

#[test]
fn features_are_read_twice_alike() {
    let mut reader = FeatureReader::from_features(b"x,y");
    let first: Vec<Vec<u8>> =
        reader.features().unwrap().iter().into_iter().map(|f| f.as_bytes().to_vec()).collect();
    let second: Vec<Vec<u8>> =
        reader.features().unwrap().iter().into_iter().map(|f| f.as_bytes().to_vec()).collect();
    assert_eq!(first, vec![b"x".to_vec(), b"y".to_vec()]);
    assert_eq!(first, second);
}

#[test]
fn features_quoted_field_keeps_its_comma() {
    let mut reader = FeatureReader::from_features(b"\"a,b\",c");
    let feats = reader.features().unwrap();
    assert_eq!(feats.len(), 2);
    assert_eq!(feats.get(0).unwrap().as_bytes(), b"a,b");
    assert_eq!(feats.get(1).unwrap().as_bytes(), b"c");
}

#[test]
fn features_only_first_row() {
    let mut reader = FeatureReader::from_features(b"a,b\nc,d,e\n");
    let feats = reader.features().unwrap();
    assert_eq!(feats.len(), 2);
    assert_eq!(feats.get(1).unwrap().as_bytes(), b"b");
    assert_eq!(feats.as_csv_record().len(), 2);
}

#[test]
fn features_empty_fields() {
    let mut reader = FeatureReader::from_features(b",,");
    let feats = reader.features().unwrap();
    assert_eq!(feats.len(), 3);
    assert_eq!(feats.get(0).unwrap().as_bytes(), b"");
    assert_eq!(feats.get(2).unwrap().as_bytes(), b"");
}

#[test]
fn cursor_from_both_ends() {
    let mut reader = FeatureReader::from_features(b"a,b,c,d");
    let feats = reader.features().unwrap();
    assert_eq!(feats.into_iter().count(), 4);
    let mut it = feats.into_iter();
    assert_eq!(it.size_hint(), (4, Some(4)));
    assert_eq!(it.next(), Some(Feature::from_inner(b"a")));
    assert_eq!(it.next_back(), Some(Feature::from_inner(b"d")));
    assert_eq!(it.size_hint(), (2, Some(2)));
    assert_eq!(it.next_back(), Some(Feature::from_inner(b"c")));
    assert_eq!(it.next(), Some(Feature::from_inner(b"b")));
    assert_eq!(it.size_hint(), (0, Some(0)));
    assert_eq!(it.next(), None);
    assert_eq!(it.next_back(), None);
    assert_eq!(it.count(), 0);
}

#[test]
fn cursor_counts_what_is_left() {
    let mut reader = FeatureReader::from_features(b"a,b,c");
    let feats = reader.features().unwrap();
    let mut it = feats.into_iter();
    assert_eq!(it.next_back(), Some(Feature::from_inner(b"c")));
    assert_eq!(it.count(), 2);
    let mut reader = FeatureReader::from_features(b"");
    let feats = reader.features().unwrap();
    let mut it = feats.into_iter();
    assert_eq!(it.next(), None);
    assert_eq!(it.size_hint(), (0, Some(0)));
}

#[test]
fn feature_bytes_and_text() {
    let feat = Feature::from_inner(b"*");
    assert_eq!(feat.as_bytes(), b"*");
    assert_eq!(feat.as_str(), Ok("*"));
}

#[test]
fn feature_invalid_utf8() {
    let feat = Feature::from_inner(&[150]);
    assert_eq!(feat.as_bytes(), &[150]);
    assert!(feat.as_str().is_err());
}

#[test]
fn feature_default_is_empty() {
    let feat = Feature::default();
    assert_eq!(feat.as_bytes(), b"");
    assert_eq!(feat.as_str(), Ok(""));
}
