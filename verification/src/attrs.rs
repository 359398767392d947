//! Dynamically typed attribute maps and the fallible decoders that project
//! them onto fixed semantic types.
//!
//! An attribute map is the wire-level view of one interface of one remote
//! object: attribute names paired with self-describing values. The decoders
//! collapse "key absent" and "key present with the wrong dynamic type" into
//! the same negative outcome; `require_*` additionally turns that outcome
//! into a `MissingAttribute` error naming the key and the expected type.

use vstd::prelude::*;

verus! {

/// A dynamically typed attribute value, as delivered by the registry.
pub enum AttrValue {
    Str(String),
    Bool(bool),
    U16(u16),
    U32(u32),
    I16(i16),
    StrSeq(Vec<String>),
}

/// The semantic type a decoder was asked for; carried in decode errors.
#[derive(Clone, Copy, PartialEq, Eq, Structural, Debug)]
pub enum AttrType {
    Str,
    Bool,
    U16,
    U32,
    I16,
    StrSeq,
}

/// One interface's attribute map: attribute name to dynamic value.
/// The first entry with a given key is the one that counts.
pub struct AttrMap {
    pub entries: Vec<(String, AttrValue)>,
}

impl View for AttrMap {
    type V = Seq<(String, AttrValue)>;

    open spec fn view(&self) -> Seq<(String, AttrValue)> {
        self.entries@
    }
}

/// First value bound to `key` in an association sequence, if any.
pub open spec fn assoc<V>(entries: Seq<(String, V)>, key: Seq<char>) -> Option<V>
    decreases entries.len(),
{
    if entries.len() == 0 {
        None
    } else if entries[0].0@ == key {
        Some(entries[0].1)
    } else {
        assoc(entries.drop_first(), key)
    }
}

/// Index of the first entry bound to `key`, if any.
pub fn find_key<V>(entries: &Vec<(String, V)>, key: &String) -> (r: Option<usize>)
    ensures
        match r {
            Some(i) => i < entries@.len() && entries@[i as int].0@ == key@ && assoc(
                entries@,
                key@,
            ) == Some(entries@[i as int].1),
            None => assoc(entries@, key@) is None,
        },
{
    let mut i: usize = 0;
    assert(entries@.skip(0) =~= entries@);
    while i < entries.len()
        invariant
            i <= entries@.len(),
            assoc(entries@, key@) == assoc(entries@.skip(i as int), key@),
        decreases entries@.len() - i,
    {
        let suffix = Ghost(entries@.skip(i as int));
        assert(suffix@[0] == entries@[i as int]);
        if entries[i].0 == *key {
            return Some(i);
        }
        assert(suffix@.drop_first() =~= entries@.skip(i as int + 1));
        i = i + 1;
    }
    assert(entries@.skip(i as int) =~= Seq::<(String, V)>::empty());
    None
}

/// A required attribute was absent, or present with the wrong dynamic type;
/// the two are indistinguishable to the decoder.
#[derive(Debug)]
pub struct MissingAttribute {
    pub key: String,
    pub expected: AttrType,
}

/// The string bound to `key`, if the first binding holds a string.
pub open spec fn spec_get_str(m: Seq<(String, AttrValue)>, key: Seq<char>) -> Option<Seq<char>> {
    match assoc(m, key) {
        Some(AttrValue::Str(s)) => Some(s@),
        _ => None,
    }
}

/// The boolean bound to `key`, if the first binding holds a boolean.
pub open spec fn spec_get_bool(m: Seq<(String, AttrValue)>, key: Seq<char>) -> Option<bool> {
    match assoc(m, key) {
        Some(AttrValue::Bool(b)) => Some(b),
        _ => None,
    }
}

/// The 16-bit unsigned integer bound to `key`, if so typed.
pub open spec fn spec_get_u16(m: Seq<(String, AttrValue)>, key: Seq<char>) -> Option<u16> {
    match assoc(m, key) {
        Some(AttrValue::U16(x)) => Some(x),
        _ => None,
    }
}

/// The 32-bit unsigned integer bound to `key`, if so typed.
pub open spec fn spec_get_u32(m: Seq<(String, AttrValue)>, key: Seq<char>) -> Option<u32> {
    match assoc(m, key) {
        Some(AttrValue::U32(x)) => Some(x),
        _ => None,
    }
}

/// The 16-bit signed integer bound to `key`, if so typed.
pub open spec fn spec_get_i16(m: Seq<(String, AttrValue)>, key: Seq<char>) -> Option<i16> {
    match assoc(m, key) {
        Some(AttrValue::I16(x)) => Some(x),
        _ => None,
    }
}

/// The string sequence bound to `key`, if so typed.
pub open spec fn spec_get_str_seq(m: Seq<(String, AttrValue)>, key: Seq<char>) -> Option<
    Seq<Seq<char>>,
> {
    match assoc(m, key) {
        Some(AttrValue::StrSeq(v)) => Some(v.deep_view()),
        _ => None,
    }
}

fn clone_string_vec(v: &Vec<String>) -> (r: Vec<String>)
    ensures
        r@ == v@,
{
    let mut r: Vec<String> = Vec::new();
    let mut i: usize = 0;
    while i < v.len()
        invariant
            i <= v@.len(),
            r@ =~= v@.subrange(0, i as int),
        decreases v@.len() - i,
    {
        let c = v[i].clone();
        assert(c == v@[i as int]);
        r.push(c);
        assert(r@ =~= v@.subrange(0, i as int + 1));
        i = i + 1;
    }
    assert(r@ =~= v@);
    r
}

impl AttrMap {
    /// The value of `key` as a string, or `None` if absent or not a string.
    pub fn get_str(&self, key: &str) -> (r: Option<String>)
        ensures
            match spec_get_str(self@, key@) {
                Some(s) => r matches Some(v) && v@ == s,
                None => r is None,
            },
    {
        let k: String = key.to_owned();
        match find_key(&self.entries, &k) {
            Some(i) => match &self.entries[i].1 {
                AttrValue::Str(s) => Some(s.clone()),
                _ => None,
            },
            None => None,
        }
    }

    /// The value of `key` as a boolean, or `None` if absent or not a boolean.
    pub fn get_bool(&self, key: &str) -> (r: Option<bool>)
        ensures
            r == spec_get_bool(self@, key@),
    {
        let k: String = key.to_owned();
        match find_key(&self.entries, &k) {
            Some(i) => match &self.entries[i].1 {
                AttrValue::Bool(b) => Some(*b),
                _ => None,
            },
            None => None,
        }
    }

    /// The value of `key` as a u16, or `None` if absent or otherwise typed.
    pub fn get_u16(&self, key: &str) -> (r: Option<u16>)
        ensures
            r == spec_get_u16(self@, key@),
    {
        let k: String = key.to_owned();
        match find_key(&self.entries, &k) {
            Some(i) => match &self.entries[i].1 {
                AttrValue::U16(x) => Some(*x),
                _ => None,
            },
            None => None,
        }
    }

    /// The value of `key` as a u32, or `None` if absent or otherwise typed.
    pub fn get_u32(&self, key: &str) -> (r: Option<u32>)
        ensures
            r == spec_get_u32(self@, key@),
    {
        let k: String = key.to_owned();
        match find_key(&self.entries, &k) {
            Some(i) => match &self.entries[i].1 {
                AttrValue::U32(x) => Some(*x),
                _ => None,
            },
            None => None,
        }
    }

    /// The value of `key` as an i16, or `None` if absent or otherwise typed.
    pub fn get_i16(&self, key: &str) -> (r: Option<i16>)
        ensures
            r == spec_get_i16(self@, key@),
    {
        let k: String = key.to_owned();
        match find_key(&self.entries, &k) {
            Some(i) => match &self.entries[i].1 {
                AttrValue::I16(x) => Some(*x),
                _ => None,
            },
            None => None,
        }
    }

    /// The value of `key` as a sequence of strings, or `None` if absent or
    /// otherwise typed.
    pub fn get_str_seq(&self, key: &str) -> (r: Option<Vec<String>>)
        ensures
            match spec_get_str_seq(self@, key@) {
                Some(s) => r matches Some(v) && v.deep_view() == s,
                None => r is None,
            },
    {
        let k: String = key.to_owned();
        match find_key(&self.entries, &k) {
            Some(i) => match &self.entries[i].1 {
                AttrValue::StrSeq(v) => Some(clone_string_vec(v)),
                _ => None,
            },
            None => None,
        }
    }

    /// Like `get_str`, but a missing or mistyped key is an error naming it.
    pub fn require_str(&self, key: &str) -> (r: Result<String, MissingAttribute>)
        ensures
            match spec_get_str(self@, key@) {
                Some(s) => r matches Ok(v) && v@ == s,
                None => r matches Err(e) && e.key@ == key@ && e.expected == AttrType::Str,
            },
    {
        match self.get_str(key) {
            Some(v) => Ok(v),
            None => Err(MissingAttribute { key: key.to_owned(), expected: AttrType::Str }),
        }
    }

    /// Like `get_bool`, but a missing or mistyped key is an error naming it.
    pub fn require_bool(&self, key: &str) -> (r: Result<bool, MissingAttribute>)
        ensures
            match spec_get_bool(self@, key@) {
                Some(b) => r == Result::<bool, MissingAttribute>::Ok(b),
                None => r matches Err(e) && e.key@ == key@ && e.expected == AttrType::Bool,
            },
    {
        match self.get_bool(key) {
            Some(v) => Ok(v),
            None => Err(MissingAttribute { key: key.to_owned(), expected: AttrType::Bool }),
        }
    }

    /// Like `get_u16`, but a missing or mistyped key is an error naming it.
    pub fn require_u16(&self, key: &str) -> (r: Result<u16, MissingAttribute>)
        ensures
            match spec_get_u16(self@, key@) {
                Some(x) => r == Result::<u16, MissingAttribute>::Ok(x),
                None => r matches Err(e) && e.key@ == key@ && e.expected == AttrType::U16,
            },
    {
        match self.get_u16(key) {
            Some(v) => Ok(v),
            None => Err(MissingAttribute { key: key.to_owned(), expected: AttrType::U16 }),
        }
    }

    /// Like `get_u32`, but a missing or mistyped key is an error naming it.
    pub fn require_u32(&self, key: &str) -> (r: Result<u32, MissingAttribute>)
        ensures
            match spec_get_u32(self@, key@) {
                Some(x) => r == Result::<u32, MissingAttribute>::Ok(x),
                None => r matches Err(e) && e.key@ == key@ && e.expected == AttrType::U32,
            },
    {
        match self.get_u32(key) {
            Some(v) => Ok(v),
            None => Err(MissingAttribute { key: key.to_owned(), expected: AttrType::U32 }),
        }
    }

    /// Like `get_i16`, but a missing or mistyped key is an error naming it.
    pub fn require_i16(&self, key: &str) -> (r: Result<i16, MissingAttribute>)
        ensures
            match spec_get_i16(self@, key@) {
                Some(x) => r == Result::<i16, MissingAttribute>::Ok(x),
                None => r matches Err(e) && e.key@ == key@ && e.expected == AttrType::I16,
            },
    {
        match self.get_i16(key) {
            Some(v) => Ok(v),
            None => Err(MissingAttribute { key: key.to_owned(), expected: AttrType::I16 }),
        }
    }

    /// Like `get_str_seq`, but a missing or mistyped key is an error naming it.
    pub fn require_str_seq(&self, key: &str) -> (r: Result<Vec<String>, MissingAttribute>)
        ensures
            match spec_get_str_seq(self@, key@) {
                Some(s) => r matches Ok(v) && v.deep_view() == s,
                None => r matches Err(e) && e.key@ == key@ && e.expected == AttrType::StrSeq,
            },
    {
        match self.get_str_seq(key) {
            Some(v) => Ok(v),
            None => Err(MissingAttribute { key: key.to_owned(), expected: AttrType::StrSeq }),
        }
    }
}

/// A key bound to a value of the wrong dynamic type decodes exactly as a key
/// that is absent: both read back as `None`.
pub proof fn lemma_wrong_type_reads_as_absent(
    m: Seq<(String, AttrValue)>,
    key: Seq<char>,
    want: AttrType,
)
    requires
        match assoc(m, key) {
            Some(v) => match want {
                AttrType::Str => !(v is Str),
                AttrType::Bool => !(v is Bool),
                AttrType::U16 => !(v is U16),
                AttrType::U32 => !(v is U32),
                AttrType::I16 => !(v is I16),
                AttrType::StrSeq => !(v is StrSeq),
            },
            None => true,
        },
    ensures
        want == AttrType::Str ==> spec_get_str(m, key) is None,
        want == AttrType::Bool ==> spec_get_bool(m, key) is None,
        want == AttrType::U16 ==> spec_get_u16(m, key) is None,
        want == AttrType::U32 ==> spec_get_u32(m, key) is None,
        want == AttrType::I16 ==> spec_get_i16(m, key) is None,
        want == AttrType::StrSeq ==> spec_get_str_seq(m, key) is None,
{
}

} // verus!
