//! Startup options of the analyser, and their canonical forms.
//!
//! Every configuration comes down to one of two calls: one argument string, or
//! an argument vector. The strings that are handed over end in a zero byte.
use vstd::prelude::*;
use vstd::slice::slice_to_vec;
use vstd::utf8::encode_utf8;

verus! {

/// Keys of the startup options.
#[derive(Debug, Clone, Copy, PartialEq, Eq, PartialOrd, Ord, Hash, Structural)]
pub enum OptionKey {
    /// Path of a resource file.
    Rcfile,
    /// Path of a system dictionary dir.
    Dicdir,
    /// Path of a user dictionary file.
    Userdic,
    /// Output format type ("wakati", "none", etc.).
    OutputFormatType,
    /// Max grouping size for unknown words (int).
    MaxGroupingSize,
    /// User-defined node format.
    NodeFormat,
    /// User-defined unknown node format.
    UnkFormat,
    /// User-defined beginning-of-sentence format.
    BosFormat,
    /// User-defined end-of-sentence format.
    EosFormat,
    /// User-defined end-of-NBest format.
    EonFormat,
    /// Feature for unknown words.
    UnkFeature,
    /// Input buffer size (int).
    InputBufferSize,
    /// Cost factor (int).
    CostFactor,
}

impl OptionKey {
    /// The spelling of the key, in ASCII, followed by a zero byte.
    pub open spec fn spelling(self) -> Seq<u8> {
        match self {
            // rcfile
            OptionKey::Rcfile => seq![114u8, 99, 102, 105, 108, 101, 0],
            // dicdir
            OptionKey::Dicdir => seq![100u8, 105, 99, 100, 105, 114, 0],
            // userdic
            OptionKey::Userdic => seq![117u8, 115, 101, 114, 100, 105, 99, 0],
            // output-format-type
            OptionKey::OutputFormatType => seq![
                111u8, 117, 116, 112, 117, 116, 45, 102, 111, 114, 109, 97, 116, 45, 116, 121, 112,
                101, 0,
            ],
            // max-grouping-size
            OptionKey::MaxGroupingSize => seq![
                109u8, 97, 120, 45, 103, 114, 111, 117, 112, 105, 110, 103, 45, 115, 105, 122, 101,
                0,
            ],
            // node-format
            OptionKey::NodeFormat => seq![
                110u8, 111, 100, 101, 45, 102, 111, 114, 109, 97, 116, 0,
            ],
            // unk-format
            OptionKey::UnkFormat => seq![117u8, 110, 107, 45, 102, 111, 114, 109, 97, 116, 0],
            // bos-format
            OptionKey::BosFormat => seq![98u8, 111, 115, 45, 102, 111, 114, 109, 97, 116, 0],
            // eos-format
            OptionKey::EosFormat => seq![101u8, 111, 115, 45, 102, 111, 114, 109, 97, 116, 0],
            // eon-format
            OptionKey::EonFormat => seq![101u8, 111, 110, 45, 102, 111, 114, 109, 97, 116, 0],
            // unk-feature
            OptionKey::UnkFeature => seq![
                117u8, 110, 107, 45, 102, 101, 97, 116, 117, 114, 101, 0,
            ],
            // input-buffer-size
            OptionKey::InputBufferSize => seq![
                105u8, 110, 112, 117, 116, 45, 98, 117, 102, 102, 101, 114, 45, 115, 105, 122, 101,
                0,
            ],
            // cost-factor
            OptionKey::CostFactor => seq![
                99u8, 111, 115, 116, 45, 102, 97, 99, 116, 111, 114, 0,
            ],
        }
    }

    /// The flag of the key as it stands in an argument vector: two dashes,
    /// then the spelling of the key with its zero byte.
    pub open spec fn flag(self) -> Seq<u8> {
        seq![45u8, 45u8] + self.spelling()
    }

    /// The flag of the key: two dashes, the spelling, a zero byte.
    pub fn flag_bytes(self) -> (r: Vec<u8>)
        ensures
            r@ == self.flag(),
    {
        let mut v: Vec<u8> = Vec::new();
        v.push(45);
        v.push(45);
        let name = self.as_bytes_with_null();
        let n: usize = name.len();
        let mut i: usize = 0;
        while i < n
            invariant
                n == name@.len(),
                i <= n,
                v@ == seq![45u8, 45u8] + name@.subrange(0, i as int),
            decreases n - i,
        {
            v.push(name[i]);
            i = i + 1;
            assert(v@ =~= seq![45u8, 45u8] + name@.subrange(0, i as int));
        }
        assert(name@.subrange(0, n as int) =~= name@);
        v
    }

    /// The spelling of the key, followed by a zero byte.
    pub fn as_bytes_with_null(self) -> (r: &'static [u8])
        ensures
            r@ == self.spelling(),
    {
        match self {
            OptionKey::Rcfile => {
                let a: &'static [u8; 7] = &[114, 99, 102, 105, 108, 101, 0];
                let s = a.as_slice();
                assert(s@ =~= self.spelling());
                s
            },
            OptionKey::Dicdir => {
                let a: &'static [u8; 7] = &[100, 105, 99, 100, 105, 114, 0];
                let s = a.as_slice();
                assert(s@ =~= self.spelling());
                s
            },
            OptionKey::Userdic => {
                let a: &'static [u8; 8] = &[117, 115, 101, 114, 100, 105, 99, 0];
                let s = a.as_slice();
                assert(s@ =~= self.spelling());
                s
            },
            OptionKey::OutputFormatType => {
                let a: &'static [u8; 19] = &[
                    111, 117, 116, 112, 117, 116, 45, 102, 111, 114, 109, 97, 116, 45, 116, 121,
                    112, 101, 0,
                ];
                let s = a.as_slice();
                assert(s@ =~= self.spelling());
                s
            },
            OptionKey::MaxGroupingSize => {
                let a: &'static [u8; 18] = &[
                    109, 97, 120, 45, 103, 114, 111, 117, 112, 105, 110, 103, 45, 115, 105, 122,
                    101, 0,
                ];
                let s = a.as_slice();
                assert(s@ =~= self.spelling());
                s
            },
            OptionKey::NodeFormat => {
                let a: &'static [u8; 12] = &[110, 111, 100, 101, 45, 102, 111, 114, 109, 97, 116, 0];
                let s = a.as_slice();
                assert(s@ =~= self.spelling());
                s
            },
            OptionKey::UnkFormat => {
                let a: &'static [u8; 11] = &[117, 110, 107, 45, 102, 111, 114, 109, 97, 116, 0];
                let s = a.as_slice();
                assert(s@ =~= self.spelling());
                s
            },
            OptionKey::BosFormat => {
                let a: &'static [u8; 11] = &[98, 111, 115, 45, 102, 111, 114, 109, 97, 116, 0];
                let s = a.as_slice();
                assert(s@ =~= self.spelling());
                s
            },
            OptionKey::EosFormat => {
                let a: &'static [u8; 11] = &[101, 111, 115, 45, 102, 111, 114, 109, 97, 116, 0];
                let s = a.as_slice();
                assert(s@ =~= self.spelling());
                s
            },
            OptionKey::EonFormat => {
                let a: &'static [u8; 11] = &[101, 111, 110, 45, 102, 111, 114, 109, 97, 116, 0];
                let s = a.as_slice();
                assert(s@ =~= self.spelling());
                s
            },
            OptionKey::UnkFeature => {
                let a: &'static [u8; 12] = &[117, 110, 107, 45, 102, 101, 97, 116, 117, 114, 101, 0];
                let s = a.as_slice();
                assert(s@ =~= self.spelling());
                s
            },
            OptionKey::InputBufferSize => {
                let a: &'static [u8; 18] = &[
                    105, 110, 112, 117, 116, 45, 98, 117, 102, 102, 101, 114, 45, 115, 105, 122,
                    101, 0,
                ];
                let s = a.as_slice();
                assert(s@ =~= self.spelling());
                s
            },
            OptionKey::CostFactor => {
                let a: &'static [u8; 12] = &[99, 111, 115, 116, 45, 102, 97, 99, 116, 111, 114, 0];
                let s = a.as_slice();
                assert(s@ =~= self.spelling());
                s
            },
        }
    }
}

/// One of the two calls that create a model.
#[derive(Debug, Clone)]
pub enum ModelCall {
    /// The call with one argument string, which ends in a zero byte.
    Single(Vec<u8>),
    /// The call with an argument vector, each token of which ends in a zero
    /// byte.
    Argv(Vec<Vec<u8>>),
}

/// What a `ModelCall` hands over, as sequences.
pub enum CallView {
    /// One argument string.
    Single(Seq<u8>),
    /// An argument vector.
    Argv(Seq<Seq<u8>>),
}

/// The byte strings of a list of vectors.
pub open spec fn rows(v: Seq<Vec<u8>>) -> Seq<Seq<u8>> {
    Seq::new(v.len(), |i: int| v[i]@)
}

/// The keys and byte strings of a list of options.
pub open spec fn option_rows(v: Seq<(OptionKey, Vec<u8>)>) -> Seq<(OptionKey, Seq<u8>)> {
    Seq::new(v.len(), |i: int| (v[i].0, v[i].1@))
}

impl View for ModelCall {
    type V = CallView;

    open spec fn view(&self) -> CallView {
        match self {
            ModelCall::Single(arg) => CallView::Single(arg@),
            ModelCall::Argv(argv) => CallView::Argv(rows(argv@)),
        }
    }
}

/// `bytes` itself where it ends in a zero byte, else `bytes` followed by one.
pub open spec fn terminated(bytes: Seq<u8>) -> Seq<u8> {
    if bytes.len() > 0 && bytes.last() == 0 {
        bytes
    } else {
        bytes.push(0)
    }
}

/// The placeholder program name that leads an argument vector: "cargo run"
/// in ASCII, followed by a zero byte.
pub open spec fn system_name() -> Seq<u8> {
    seq![99u8, 97, 114, 103, 111, 32, 114, 117, 110, 0]
}

/// The argument vector for a list of tokens: the program name, then every
/// token, terminated.
pub open spec fn argv_of(tokens: Seq<Seq<u8>>) -> Seq<Seq<u8>> {
    Seq::new(
        tokens.len() + 1,
        |i: int|
            if i == 0 {
                system_name()
            } else {
                terminated(tokens[i - 1])
            },
    )
}

/// The argument vector for a list of options: the program name, then for
/// every option the flag of its key and its value, terminated.
pub open spec fn argv_of_options(options: Seq<(OptionKey, Seq<u8>)>) -> Seq<Seq<u8>> {
    Seq::new(
        2 * options.len() + 1,
        |i: int|
            if i == 0 {
                system_name()
            } else if i % 2 == 1 {
                options[(i - 1) / 2].0.flag()
            } else {
                terminated(options[(i - 1) / 2].1)
            },
    )
}

/// The argument vector for a list of raw tokens: the tokens themselves,
/// terminated, with no program name before them.
pub open spec fn argv_of_raw(tokens: Seq<Seq<u8>>) -> Seq<Seq<u8>> {
    Seq::new(tokens.len(), |i: int| terminated(tokens[i]))
}

/// Copies `bytes`, and appends a zero byte unless they end in one.
pub fn terminate(bytes: &[u8]) -> (r: Vec<u8>)
    ensures
        r@ == terminated(bytes@),
{
    terminate_vec(slice_to_vec(bytes))
}

/// Appends a zero byte to `bytes` unless they end in one.
pub fn terminate_vec(bytes: Vec<u8>) -> (r: Vec<u8>)
    ensures
        r@ == terminated(bytes@),
{
    let mut v = bytes;
    let n: usize = v.len();
    if n == 0 || v[n - 1] != 0 {
        v.push(0);
    }
    v
}

/// The placeholder program name that leads an argument vector.
pub fn system_name_bytes() -> (r: &'static [u8])
    ensures
        r@ == system_name(),
{
    let a: &'static [u8; 10] = &[99, 97, 114, 103, 111, 32, 114, 117, 110, 0];
    let s = a.as_slice();
    assert(s@ =~= system_name());
    s
}

/// A list of raw tokens, which are handed over without a program name before
/// them.
pub struct RawArgv<'a>(pub &'a [Vec<u8>]);

/// A configuration of a model, in one of several shapes.
pub trait ModelArgs: Sized {
    /// The call that the configuration comes down to.
    spec fn canonical(self) -> CallView;

    /// Normalises the configuration to one of the two calls.
    fn create_call(self) -> (c: ModelCall)
        ensures
            c@ == self.canonical(),
    ;
}

impl<'a> ModelArgs for &'a [u8] {
    open spec fn canonical(self) -> CallView {
        CallView::Single(terminated(self@))
    }

    fn create_call(self) -> (c: ModelCall) {
        ModelCall::Single(terminate(self))
    }
}

impl<'a, const N: usize> ModelArgs for &'a [u8; N] {
    open spec fn canonical(self) -> CallView {
        CallView::Single(terminated(self@))
    }

    fn create_call(self) -> (c: ModelCall) {
        ModelCall::Single(terminate(self.as_slice()))
    }
}

impl<'a> ModelArgs for &'a Vec<u8> {
    open spec fn canonical(self) -> CallView {
        CallView::Single(terminated(self@))
    }

    fn create_call(self) -> (c: ModelCall) {
        ModelCall::Single(terminate(self.as_slice()))
    }
}

impl ModelArgs for Vec<u8> {
    open spec fn canonical(self) -> CallView {
        CallView::Single(terminated(self@))
    }

    fn create_call(self) -> (c: ModelCall) {
        ModelCall::Single(terminate_vec(self))
    }
}

impl<'a> ModelArgs for &'a str {
    open spec fn canonical(self) -> CallView {
        CallView::Single(terminated(encode_utf8(self@)))
    }

    fn create_call(self) -> (c: ModelCall) {
        ModelCall::Single(terminate(self.as_bytes()))
    }
}

impl<'a> ModelArgs for &'a String {
    open spec fn canonical(self) -> CallView {
        CallView::Single(terminated(encode_utf8(self@)))
    }

    fn create_call(self) -> (c: ModelCall) {
        ModelCall::Single(terminate(self.as_str().as_bytes()))
    }
}

impl ModelArgs for String {
    open spec fn canonical(self) -> CallView {
        CallView::Single(terminated(encode_utf8(self@)))
    }

    fn create_call(self) -> (c: ModelCall) {
        ModelCall::Single(terminate(self.as_str().as_bytes()))
    }
}

impl<'a> ModelArgs for &'a [Vec<u8>] {
    open spec fn canonical(self) -> CallView {
        CallView::Argv(argv_of(rows(self@)))
    }

    fn create_call(self) -> (c: ModelCall) {
        let mut argv: Vec<Vec<u8>> = Vec::new();
        argv.push(slice_to_vec(system_name_bytes()));
        let n: usize = self.len();
        let mut i: usize = 0;
        while i < n
            invariant
                n == self@.len(),
                i <= n,
                argv@.len() == i + 1,
                argv@[0]@ == system_name(),
                forall|k: int| 0 <= k < i ==> (#[trigger] argv@[k + 1])@ == terminated(self@[k]@),
            decreases n - i,
        {
            argv.push(terminate(self[i].as_slice()));
            i = i + 1;
        }
        proof {
            assert forall|k: int| 0 <= k < argv@.len() implies rows(argv@)[k] == argv_of(
                rows(self@),
            )[k] by {
                if k > 0 {
                    assert(argv@[(k - 1) + 1]@ == terminated(self@[k - 1]@));
                }
            }
            assert(rows(argv@) =~= argv_of(rows(self@)));
        }
        ModelCall::Argv(argv)
    }
}

impl<'a> ModelArgs for &'a [(OptionKey, Vec<u8>)] {
    open spec fn canonical(self) -> CallView {
        CallView::Argv(argv_of_options(option_rows(self@)))
    }

    fn create_call(self) -> (c: ModelCall) {
        let mut argv: Vec<Vec<u8>> = Vec::new();
        argv.push(slice_to_vec(system_name_bytes()));
        let n: usize = self.len();
        let mut i: usize = 0;
        while i < n
            invariant
                n == self@.len(),
                i <= n,
                argv@.len() == 2 * i + 1,
                argv@[0]@ == system_name(),
                forall|k: int|
                    0 <= k < i ==> (#[trigger] argv@[2 * k + 1])@ == self@[k].0.flag(),
                forall|k: int|
                    0 <= k < i ==> (#[trigger] argv@[2 * k + 2])@ == terminated(self@[k].1@),
            decreases n - i,
        {
            argv.push(self[i].0.flag_bytes());
            argv.push(terminate(self[i].1.as_slice()));
            i = i + 1;
        }
        proof {
            let want = argv_of_options(option_rows(self@));
            assert forall|j: int| 0 <= j < argv@.len() implies rows(argv@)[j] == want[j] by {
                if j > 0 {
                    let k = (j - 1) / 2;
                    if j % 2 == 1 {
                        assert(j == 2 * k + 1);
                        assert(argv@[2 * k + 1]@ == self@[k].0.flag());
                    } else {
                        assert(j == 2 * k + 2);
                        assert(argv@[2 * k + 2]@ == terminated(self@[k].1@));
                    }
                }
            }
            assert(rows(argv@) =~= want);
        }
        ModelCall::Argv(argv)
    }
}

impl<'a> ModelArgs for RawArgv<'a> {
    open spec fn canonical(self) -> CallView {
        CallView::Argv(argv_of_raw(rows(self.0@)))
    }

    fn create_call(self) -> (c: ModelCall) {
        let mut argv: Vec<Vec<u8>> = Vec::new();
        let n: usize = self.0.len();
        let mut i: usize = 0;
        while i < n
            invariant
                n == self.0@.len(),
                i <= n,
                argv@.len() == i,
                forall|k: int| 0 <= k < i ==> (#[trigger] argv@[k])@ == terminated(self.0@[k]@),
            decreases n - i,
        {
            argv.push(terminate(self.0[i].as_slice()));
            i = i + 1;
        }
        proof {
            assert(rows(argv@) =~= argv_of_raw(rows(self.0@)));
        }
        ModelCall::Argv(argv)
    }
}

/// The tokens that a list of options stands for: for every option the flag
/// of its key, then its value.
pub open spec fn option_tokens(options: Seq<(OptionKey, Seq<u8>)>) -> Seq<Seq<u8>> {
    Seq::new(
        2 * options.len(),
        |i: int|
            if i % 2 == 0 {
                options[i / 2].0.flag()
            } else {
                options[i / 2].1
            },
    )
}

/// A terminated string ends in a zero byte and begins with the string it was
/// made of; to terminate it once more changes nothing.
pub proof fn lemma_terminated(bytes: Seq<u8>)
    ensures
        terminated(bytes).len() >= 1,
        terminated(bytes).last() == 0,
        bytes.len() <= terminated(bytes).len() <= bytes.len() + 1,
        terminated(bytes).subrange(0, bytes.len() as int) == bytes,
        terminated(terminated(bytes)) == terminated(bytes),
{
    assert(terminated(bytes).subrange(0, bytes.len() as int) =~= bytes);
}

/// The spelling of every key ends in its only zero byte, and so does its
/// flag, which begins with two dashes.
pub proof fn lemma_spelling_terminated(key: OptionKey)
    ensures
        key.spelling().len() >= 2,
        key.spelling().last() == 0,
        forall|i: int| 0 <= i < key.spelling().len() - 1 ==> key.spelling()[i] != 0,
        terminated(key.spelling()) == key.spelling(),
        key.flag().len() == key.spelling().len() + 2,
        key.flag()[0] == 45 && key.flag()[1] == 45,
        key.flag().subrange(2, key.flag().len() as int) == key.spelling(),
        key.flag().last() == 0,
        terminated(key.flag()) == key.flag(),
{
    assert(key.flag().subrange(2, key.flag().len() as int) =~= key.spelling());
    assert(key.flag().last() == key.spelling().last());
}

/// An argument vector for tokens holds the program name and one string for
/// every token, and each of its strings ends in a zero byte.
pub proof fn lemma_argv_of_tokens(tokens: Seq<Seq<u8>>)
    ensures
        argv_of(tokens).len() == tokens.len() + 1,
        argv_of(tokens)[0] == system_name(),
        forall|i: int| 0 <= i < argv_of(tokens).len() ==> (#[trigger] argv_of(tokens)[i]).last() == 0,
{
    assert forall|i: int| 0 <= i < argv_of(tokens).len() implies (#[trigger] argv_of(
        tokens,
    )[i]).last() == 0 by {
        if i > 0 {
            lemma_terminated(tokens[i - 1]);
        }
    }
}

/// A list of options comes down to the argument vector of the tokens that it
/// stands for, which holds the program name and two strings for every
/// option.
pub proof fn lemma_options_as_tokens(options: Seq<(OptionKey, Seq<u8>)>)
    ensures
        argv_of_options(options) == argv_of(option_tokens(options)),
        argv_of_options(options).len() == 2 * options.len() + 1,
{
    let a = argv_of_options(options);
    let b = argv_of(option_tokens(options));
    assert forall|i: int| 0 <= i < a.len() implies a[i] == b[i] by {
        if i > 0 {
            if i % 2 == 1 {
                assert((i - 1) % 2 == 0);
                lemma_spelling_terminated(options[(i - 1) / 2].0);
            } else {
                assert((i - 1) % 2 == 1);
            }
        }
    }
    assert(a =~= b);
}

} // verus!
