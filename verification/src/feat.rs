//! Reader of the comma-separated feature string of a node.
use crate::node::Node;
use crate::text::{decodes, str_from_utf8};
use csv::{ByteRecord, ByteRecordIter, Reader};
use std::str::Utf8Error;
use vstd::prelude::*;

verus! {

/// The CSV reader of the `csv` crate.
#[verifier::external_type_specification]
#[verifier::external_body]
#[verifier::reject_recursive_types(R)]
pub struct ExReader<R>(Reader<R>);

/// A record of the `csv` crate: a row of byte-string fields.
#[verifier::external_type_specification]
#[verifier::external_body]
pub struct ExByteRecord(ByteRecord);

/// The cursor of the `csv` crate over the fields of a record, which can be
/// read from both ends.
#[verifier::external_type_specification]
#[verifier::external_body]
pub struct ExByteRecordIter<'r>(ByteRecordIter<'r>);

/// The error of the `csv` crate.
#[verifier::external_type_specification]
#[verifier::external_body]
pub struct ExCsvError(csv::Error);

/// The error of a failed reading of features.
#[derive(Debug)]
pub struct FeatureError {
    cause: csv::Error,
}

impl FeatureError {
    /// The error of the reader that is the cause.
    pub closed spec fn cause(&self) -> csv::Error {
        self.cause
    }

    /// The error of the reader that is the cause.
    pub fn as_csv_error(&self) -> (e: &csv::Error)
        ensures
            *e == self.cause(),
    {
        &self.cause
    }

    /// Gives up the error of the reader that is the cause.
    pub fn into_csv_error(self) -> (e: csv::Error)
        ensures
            e == self.cause(),
    {
        self.cause
    }
}

/// The fields that a record holds, in order.
pub uninterp spec fn record_fields(record: &ByteRecord) -> Seq<Seq<u8>>;

/// The fields that a cursor has yet to yield, in order.
pub uninterp spec fn iter_rest(it: &ByteRecordIter) -> Seq<Seq<u8>>;

/// The bytes that a reader was made over by `Reader::from_reader`.
pub uninterp spec fn reader_input(reader: &Reader<&[u8]>) -> Seq<u8>;

/// The fields of the first row that a reader with the default settings finds
/// in `input`, or `None` where reading that row fails.
pub uninterp spec fn first_row(input: Seq<u8>) -> Option<Seq<Seq<u8>>>;

/// `csv::Reader::from_reader` on a byte slice: a reader with the default
/// settings over exactly these bytes.
#[verifier::external_body]
fn reader_over<'a>(feats: &'a [u8]) -> (reader: Reader<&'a [u8]>)
    ensures
        reader_input(&reader) == feats@,
{
    Reader::from_reader(feats)
}

/// `csv::Reader::byte_headers`: the first row of the reader's input, read on
/// the first call and kept for the later ones; the input stays what it was.
/// Of an input without any data the row is an empty record.
#[verifier::external_body]
fn reader_headers<'r, 'a>(reader: &'r mut Reader<&'a [u8]>) -> (r: Result<&'r ByteRecord, csv::Error>)
    ensures
        reader_input(final(reader)) == reader_input(old(reader)),
        match first_row(reader_input(old(reader))) {
            Some(fields) => r is Ok && record_fields(r->Ok_0) == fields,
            None => r is Err,
        },
        reader_input(old(reader)).len() == 0 ==> r is Ok && record_fields(r->Ok_0).len() == 0,
{
    reader.byte_headers()
}

/// `csv::ByteRecord::len`: the number of fields.
#[verifier::external_body]
fn record_len(record: &ByteRecord) -> (n: usize)
    ensures
        n == record_fields(record).len(),
{
    record.len()
}

/// `csv::ByteRecord::get`: the field at position `i`, or `None` where the
/// record has no such field.
#[verifier::external_body]
fn record_get<'a>(record: &'a ByteRecord, i: usize) -> (r: Option<&'a [u8]>)
    ensures
        i < record_fields(record).len() ==> r is Some && r->Some_0@ == record_fields(record)[i as int],
        i >= record_fields(record).len() ==> r is None,
{
    record.get(i)
}

/// `csv::ByteRecord::iter`: a cursor that has all the fields yet to yield.
#[verifier::external_body]
fn record_iter<'a>(record: &'a ByteRecord) -> (it: ByteRecordIter<'a>)
    ensures
        iter_rest(&it) == record_fields(record),
{
    record.iter()
}

/// `next` of `csv::ByteRecordIter`: yields the first field that is left, or
/// `None` where none is left.
#[verifier::external_body]
fn iter_next<'a>(it: &mut ByteRecordIter<'a>) -> (r: Option<&'a [u8]>)
    ensures
        iter_rest(old(it)).len() == 0 ==> r is None && iter_rest(final(it)) == iter_rest(old(it)),
        iter_rest(old(it)).len() > 0 ==> r is Some && r->Some_0@ == iter_rest(old(it)).first()
            && iter_rest(final(it)) == iter_rest(old(it)).drop_first(),
{
    it.next()
}

/// `next_back` of `csv::ByteRecordIter`: yields the last field that is left,
/// or `None` where none is left.
#[verifier::external_body]
fn iter_next_back<'a>(it: &mut ByteRecordIter<'a>) -> (r: Option<&'a [u8]>)
    ensures
        iter_rest(old(it)).len() == 0 ==> r is None && iter_rest(final(it)) == iter_rest(old(it)),
        iter_rest(old(it)).len() > 0 ==> r is Some && r->Some_0@ == iter_rest(old(it)).last()
            && iter_rest(final(it)) == iter_rest(old(it)).drop_last(),
{
    it.next_back()
}

/// `size_hint` of `csv::ByteRecordIter`: the number of fields that are left,
/// as the lower and as the upper bound.
#[verifier::external_body]
fn iter_size_hint(it: &ByteRecordIter) -> (r: (usize, Option<usize>))
    ensures
        r.0 == iter_rest(it).len(),
        r.1 == Some(r.0),
{
    it.size_hint()
}

/// `count` of `csv::ByteRecordIter`: the number of fields that are left.
#[verifier::external_body]
fn iter_count(it: ByteRecordIter) -> (n: usize)
    ensures
        n == iter_rest(&it).len(),
{
    it.count()
}

/// Helper to create [`Features`]: a reader over one feature string.
#[derive(Debug)]
pub struct FeatureReader<'a> {
    reader: Reader<&'a [u8]>,
}

impl<'a> View for FeatureReader<'a> {
    type V = Seq<u8>;

    /// The feature string that is read.
    closed spec fn view(&self) -> Seq<u8> {
        reader_input(&self.reader)
    }
}

impl<'a> FeatureReader<'a> {
    /// A reader over the given feature string.
    pub fn from_features(feats: &'a [u8]) -> (r: Self)
        ensures
            r@ == feats@,
    {
        let reader = reader_over(feats);
        Self { reader }
    }

    /// A reader over the feature string of `node`.
    pub fn from_node(node: &'a Node) -> (r: Self)
        ensures
            r@ == node.feature@,
    {
        Self::from_features(node.features())
    }

    /// The features of the string: the fields of its first row. It fails
    /// exactly where reading that row fails; of an empty string it gives no
    /// feature.
    pub fn features(&mut self) -> (r: Result<Features<'_>, FeatureError>)
        ensures
            final(self)@ == old(self)@,
            match first_row(old(self)@) {
                Some(fields) => r is Ok && r->Ok_0@ == fields,
                None => r is Err,
            },
            old(self)@.len() == 0 ==> r is Ok && r->Ok_0@.len() == 0,
    {
        match reader_headers(&mut self.reader) {
            Ok(record) => Ok(Features { record }),
            Err(cause) => Err(FeatureError { cause }),
        }
    }
}

/// The features of one node, in order.
#[derive(Debug, Clone, Copy, PartialEq, Eq)]
pub struct Features<'a> {
    record: &'a ByteRecord,
}

impl<'a> View for Features<'a> {
    type V = Seq<Seq<u8>>;

    /// The fields, in order.
    closed spec fn view(&self) -> Seq<Seq<u8>> {
        record_fields(self.record)
    }
}

/// One feature: a field of the feature string.
#[derive(Debug, Default, Clone, Copy, PartialEq, Eq, PartialOrd, Ord, Hash)]
pub struct Feature<'a> {
    inner: &'a [u8],
}

impl<'a> View for Feature<'a> {
    type V = Seq<u8>;

    /// The bytes of the field.
    closed spec fn view(&self) -> Seq<u8> {
        self.inner@
    }
}

impl<'a> Feature<'a> {
    /// The feature with the given bytes.
    pub fn from_inner(inner: &'a [u8]) -> (f: Self)
        ensures
            f@ == inner@,
    {
        Self { inner }
    }

    /// The bytes of the feature.
    pub fn as_bytes(self) -> (b: &'a [u8])
        ensures
            b@ == self@,
    {
        self.inner
    }

    /// The feature as text: an error exactly when its bytes are no UTF-8.
    pub fn as_str(self) -> (r: Result<&'a str, Utf8Error>)
        ensures
            decodes(self@, r),
    {
        str_from_utf8(self.inner)
    }
}

/// The field at position `i` of `fields`, if there is one.
pub open spec fn field_at(fields: Seq<Seq<u8>>, i: int) -> Option<Seq<u8>> {
    if 0 <= i < fields.len() {
        Some(fields[i])
    } else {
        None
    }
}

/// The bytes of an optional feature.
pub open spec fn bytes_of(f: Option<Feature<'_>>) -> Option<Seq<u8>> {
    match f {
        Some(f) => Some(f@),
        None => None,
    }
}

impl<'a> Features<'a> {
    /// The underlying record.
    pub fn as_csv_record(&self) -> (r: &'a ByteRecord)
        ensures
            record_fields(r) == self@,
    {
        self.record
    }

    /// Whether there is no feature.
    pub fn is_empty(&self) -> (b: bool)
        ensures
            b == (self@.len() == 0),
    {
        record_len(self.record) == 0
    }

    /// The number of features.
    pub fn len(&self) -> (n: usize)
        ensures
            n == self@.len(),
    {
        record_len(self.record)
    }

    /// The feature at position `i`, or `None` where `i` is out of bounds.
    pub fn get(&self, i: usize) -> (r: Option<Feature<'a>>)
        ensures
            bytes_of(r) == field_at(self@, i as int),
    {
        if i < self.len() {
            Some(Feature::from_inner(self.index(i)))
        } else {
            None
        }
    }

    /// The bytes of the feature at position `index`.
    pub fn index(&self, index: usize) -> (r: &'a [u8])
        requires
            index < self@.len(),
        ensures
            r@ == self@[index as int],
    {
        match record_get(self.record, index) {
            Some(inner) => inner,
            None => {
                let empty: &'static [u8; 0] = &[];
                empty.as_slice()
            },
        }
    }

    /// All the features, in order.
    pub fn iter(&self) -> (v: Vec<Feature<'a>>)
        ensures
            v@.len() == self@.len(),
            forall|i: int| 0 <= i < v@.len() ==> (#[trigger] v@[i])@ == self@[i],
    {
        let mut it = record_iter(self.record);
        let mut v: Vec<Feature<'a>> = Vec::new();
        loop
            invariant
                v@.len() + iter_rest(&it).len() == self@.len(),
                forall|k: int| 0 <= k < v@.len() ==> (#[trigger] v@[k])@ == self@[k],
                forall|k: int|
                    0 <= k < iter_rest(&it).len() ==> #[trigger] iter_rest(&it)[k] == self@[v@.len()
                        + k],
            decreases iter_rest(&it).len(),
        {
            let ghost rest = iter_rest(&it);
            match iter_next(&mut it) {
                Some(inner) => {
                    assert(inner@ == rest[0]);
                    assert forall|k: int| 0 <= k < iter_rest(&it).len() implies #[trigger] iter_rest(
                        &it,
                    )[k] == self@[v@.len() + 1 + k] by {
                        assert(iter_rest(&it)[k] == rest[k + 1]);
                    }
                    v.push(Feature { inner });
                },
                None => {
                    return v;
                },
            }
        }
    }

    /// A cursor over all the features, which can be read from both ends.
    pub fn into_iter(self) -> (it: IntoIter<'a>)
        ensures
            it@ == self@,
    {
        IntoIter { it: record_iter(self.record) }
    }
}

/// A cursor over the features that are left between two ends.
pub struct IntoIter<'a> {
    it: ByteRecordIter<'a>,
}

impl<'a> View for IntoIter<'a> {
    type V = Seq<Seq<u8>>;

    /// The fields that are left, in order.
    closed spec fn view(&self) -> Seq<Seq<u8>> {
        iter_rest(&self.it)
    }
}

impl<'a> IntoIter<'a> {
    /// Takes the first feature that is left.
    pub fn next(&mut self) -> (r: Option<Feature<'a>>)
        ensures
            old(self)@.len() == 0 ==> r is None && final(self)@ == old(self)@,
            old(self)@.len() > 0 ==> r is Some && r->Some_0@ == old(self)@.first() && final(self)@
                == old(self)@.drop_first(),
    {
        match iter_next(&mut self.it) {
            Some(inner) => Some(Feature { inner }),
            None => None,
        }
    }

    /// Takes the last feature that is left.
    pub fn next_back(&mut self) -> (r: Option<Feature<'a>>)
        ensures
            old(self)@.len() == 0 ==> r is None && final(self)@ == old(self)@,
            old(self)@.len() > 0 ==> r is Some && r->Some_0@ == old(self)@.last() && final(self)@
                == old(self)@.drop_last(),
    {
        match iter_next_back(&mut self.it) {
            Some(inner) => Some(Feature { inner }),
            None => None,
        }
    }

    /// The number of features that are left, as a lower and an upper bound.
    pub fn size_hint(&self) -> (r: (usize, Option<usize>))
        ensures
            r.0 == self@.len(),
            r.1 == Some(r.0),
    {
        iter_size_hint(&self.it)
    }

    /// The number of features that are left.
    pub fn count(self) -> (n: usize)
        ensures
            n == self@.len(),
    {
        iter_count(self.it)
    }
}

} // verus!
