//! Information on the dictionaries of a model.
use vstd::prelude::*;

verus! {

/// Dictionary type.
#[derive(Debug, Clone, Copy, PartialEq, Eq, PartialOrd, Ord, Hash, Structural)]
pub enum DictionaryType {
    /// System dictionary
    System,
    /// User dictionary
    User,
    /// Unknown word dictionary
    UnknownWord,
}

impl DictionaryType {
    /// The type that a type code stands for: 0 the system dictionary, 1 a user
    /// dictionary, every other code the unknown-word dictionary.
    pub open spec fn of_code(code: i32) -> DictionaryType {
        if code == 0 {
            DictionaryType::System
        } else if code == 1 {
            DictionaryType::User
        } else {
            DictionaryType::UnknownWord
        }
    }

    /// Decodes a type code.
    pub fn from_code(code: i32) -> (t: DictionaryType)
        ensures
            t == DictionaryType::of_code(code),
    {
        match code {
            0 => DictionaryType::System,
            1 => DictionaryType::User,
            _ => DictionaryType::UnknownWord,
        }
    }
}

/// Information on one dictionary, followed by that on the dictionaries after
/// it: the system dictionary comes first.
#[derive(Debug)]
pub struct DictionaryInfo {
    /// Filename of the dictionary.
    pub filename: Vec<u8>,
    /// Character set of the dictionary.
    pub charset: Vec<u8>,
    /// How many words are registered in this dictionary.
    pub size: u32,
    /// Type code of the dictionary.
    pub type_code: i32,
    /// Size of left attributes.
    pub lsize: u32,
    /// Size of right attributes.
    pub rsize: u32,
    /// Version of this dictionary.
    pub version: u16,
    /// Information on the next dictionary.
    pub next: Option<Box<DictionaryInfo>>,
}

impl DictionaryInfo {
    /// Filename of the dictionary.
    pub fn filename(&self) -> (s: &[u8])
        ensures
            s@ == self.filename@,
    {
        self.filename.as_slice()
    }

    /// Character set of the dictionary.
    pub fn charset(&self) -> (s: &[u8])
        ensures
            s@ == self.charset@,
    {
        self.charset.as_slice()
    }

    /// Dictionary type.
    pub fn dictionary_type(&self) -> (t: DictionaryType)
        ensures
            t == DictionaryType::of_code(self.type_code),
    {
        DictionaryType::from_code(self.type_code)
    }

    /// Information on the next dictionary, if there is one.
    pub fn next(&self) -> (r: Option<&DictionaryInfo>)
        ensures
            match r {
                Some(info) => self.next == Some(Box::new(*info)),
                None => self.next.is_none(),
            },
    {
        match &self.next {
            Some(next) => Some(&**next),
            None => None,
        }
    }
}

} // verus!
