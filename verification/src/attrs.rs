//! Detected attributes: typed attribute values, the bag of attributes a
//! detection produces, and the textual encoding used when a value becomes a
//! monitored-resource label.

use vstd::prelude::*;

use crate::strutil::{int_text, str_eq, i64_to_string};

verus! {

/// An attribute value: a string, a boolean, an integer, a homogeneous array
/// of these, or an opaque value carried as its already-encoded text (used for
/// value kinds the library does not model, such as floating point).
#[derive(Debug, PartialEq)]
pub enum AttrValue {
    Str(String),
    Bool(bool),
    Int(i64),
    BoolArray(Vec<bool>),
    IntArray(Vec<i64>),
    StrArray(Vec<String>),
    Raw(String),
}

/// The mathematical shape of an attribute value.
pub enum AttrVal {
    Text(Seq<char>),
    Flag(bool),
    Number(int),
    Flags(Seq<bool>),
    Numbers(Seq<int>),
    Texts(Seq<Seq<char>>),
    Opaque(Seq<char>),
}

/// The shape of an executable attribute value.
pub open spec fn attr_val_view(v: AttrValue) -> AttrVal {
    match v {
        AttrValue::Str(s) => AttrVal::Text(s@),
        AttrValue::Bool(b) => AttrVal::Flag(b),
        AttrValue::Int(i) => AttrVal::Number(i as int),
        AttrValue::BoolArray(items) => AttrVal::Flags(items@),
        AttrValue::IntArray(items) => AttrVal::Numbers(items@.map_values(|i: i64| i as int)),
        AttrValue::StrArray(items) => AttrVal::Texts(items@.map_values(|s: String| s@)),
        AttrValue::Raw(s) => AttrVal::Opaque(s@),
    }
}

impl View for AttrValue {
    type V = AttrVal;

    open spec fn view(&self) -> AttrVal {
        attr_val_view(*self)
    }
}

/// Text of a boolean.
pub open spec fn bool_text(b: bool) -> Seq<char> {
    if b {
        "true"@
    } else {
        "false"@
    }
}

/// The parts joined by commas, with no trailing separator.
pub open spec fn comma_join(parts: Seq<Seq<char>>) -> Seq<char>
    decreases parts.len(),
{
    if parts.len() == 0 {
        Seq::empty()
    } else if parts.len() == 1 {
        parts[0]
    } else {
        comma_join(parts.drop_last()) + seq![','] + parts.last()
    }
}

/// The parts joined by commas between brackets.
pub open spec fn array_text(parts: Seq<Seq<char>>) -> Seq<char> {
    seq!['['] + comma_join(parts) + seq![']']
}

/// `s` between double quotes (no escaping: array elements are emitted
/// verbatim).
pub open spec fn quoted(s: Seq<char>) -> Seq<char> {
    seq!['"'] + s + seq!['"']
}

/// The label text of an attribute value: strings pass through unchanged,
/// booleans and integers print in their usual form, arrays print in compact
/// bracket notation with string elements quoted, opaque values carry their
/// own text.
pub open spec fn attr_text(v: AttrVal) -> Seq<char> {
    match v {
        AttrVal::Text(s) => s,
        AttrVal::Flag(b) => bool_text(b),
        AttrVal::Number(i) => int_text(i),
        AttrVal::Flags(items) => array_text(items.map_values(|b: bool| bool_text(b))),
        AttrVal::Numbers(items) => array_text(items.map_values(|i: int| int_text(i))),
        AttrVal::Texts(items) => array_text(items.map_values(|s: Seq<char>| quoted(s))),
        AttrVal::Opaque(s) => s,
    }
}

fn encode_bool(out: &mut String, b: bool)
    ensures
        final(out)@ == old(out)@ + bool_text(b),
{
    if b {
        out.append("true");
    } else {
        out.append("false");
    }
}

fn encode_i64(out: &mut String, i: i64)
    ensures
        final(out)@ == old(out)@ + int_text(i as int),
{
    let text = i64_to_string(i);
    out.append(text.as_str());
}

fn encode_quoted(out: &mut String, s: &String)
    ensures
        final(out)@ == old(out)@ + quoted(s@),
{
    out.push('"');
    out.append(s.as_str());
    out.push('"');
    proof {
        assert(final(out)@ =~= old(out)@ + quoted(s@));
    }
}

/// The label text of an attribute value, as `attr_text` states it.
pub fn encode_attr(v: &AttrValue) -> (r: String)
    ensures
        r@ == attr_text(v@),
{
    match v {
        AttrValue::Str(s) => s.as_str().to_owned(),
        AttrValue::Raw(s) => s.as_str().to_owned(),
        AttrValue::Bool(b) => {
            let mut out = String::new();
            encode_bool(&mut out, *b);
            out
        },
        AttrValue::Int(i) => i64_to_string(*i),
        AttrValue::BoolArray(items) => {
            let ghost parts = items@.map_values(|b: bool| bool_text(b));
            let mut out = String::new();
            out.push('[');
            let mut i: usize = 0;
            while i < items.len()
                invariant
                    parts == items@.map_values(|b: bool| bool_text(b)),
                    i <= items@.len(),
                    out@ =~= seq!['['] + comma_join(parts.subrange(0, i as int)),
                decreases items@.len() - i,
            {
                if i > 0 {
                    out.push(',');
                }
                encode_bool(&mut out, items[i]);
                proof {
                    lemma_join_step(parts, i as int);
                }
                i = i + 1;
            }
            out.push(']');
            proof {
                assert(parts.subrange(0, parts.len() as int) =~= parts);
                assert(out@ =~= array_text(parts));
            }
            out
        },
        AttrValue::IntArray(items) => {
            let ghost parts = items@.map_values(|i: i64| i as int).map_values(
                |i: int| int_text(i),
            );
            let mut out = String::new();
            out.push('[');
            let mut i: usize = 0;
            while i < items.len()
                invariant
                    parts == items@.map_values(|i: i64| i as int).map_values(
                        |i: int| int_text(i),
                    ),
                    i <= items@.len(),
                    out@ =~= seq!['['] + comma_join(parts.subrange(0, i as int)),
                decreases items@.len() - i,
            {
                if i > 0 {
                    out.push(',');
                }
                encode_i64(&mut out, items[i]);
                proof {
                    lemma_join_step(parts, i as int);
                }
                i = i + 1;
            }
            out.push(']');
            proof {
                assert(parts.subrange(0, parts.len() as int) =~= parts);
                assert(out@ =~= array_text(parts));
            }
            out
        },
        AttrValue::StrArray(items) => {
            let ghost parts = items@.map_values(|s: String| s@).map_values(
                |s: Seq<char>| quoted(s),
            );
            let mut out = String::new();
            out.push('[');
            let mut i: usize = 0;
            while i < items.len()
                invariant
                    parts == items@.map_values(|s: String| s@).map_values(
                        |s: Seq<char>| quoted(s),
                    ),
                    i <= items@.len(),
                    out@ =~= seq!['['] + comma_join(parts.subrange(0, i as int)),
                decreases items@.len() - i,
            {
                if i > 0 {
                    out.push(',');
                }
                encode_quoted(&mut out, &items[i]);
                proof {
                    lemma_join_step(parts, i as int);
                }
                i = i + 1;
            }
            out.push(']');
            proof {
                assert(parts.subrange(0, parts.len() as int) =~= parts);
                assert(out@ =~= array_text(parts));
            }
            out
        },
    }
}

/// A bag of detected attributes: key-value pairs whose order of insertion
/// carries no meaning. Keys are unique as detection builds them; lookup takes
/// the first match.
#[derive(Debug, PartialEq)]
pub struct AttributeSet {
    pub entries: Vec<(String, AttrValue)>,
}

impl View for AttributeSet {
    type V = Seq<(Seq<char>, AttrVal)>;

    open spec fn view(&self) -> Seq<(Seq<char>, AttrVal)> {
        self.entries@.map_values(|p: (String, AttrValue)| (p.0@, attr_val_view(p.1)))
    }
}

/// The value under `key`: the first entry whose key equals it.
pub open spec fn attrs_lookup(entries: Seq<(Seq<char>, AttrVal)>, key: Seq<char>) -> Option<
    AttrVal,
>
    decreases entries.len(),
{
    if entries.len() == 0 {
        None
    } else if entries[0].0 == key {
        Some(entries[0].1)
    } else {
        attrs_lookup(entries.drop_first(), key)
    }
}

/// Some entry has the key.
pub open spec fn attrs_has(entries: Seq<(Seq<char>, AttrVal)>, key: Seq<char>) -> bool {
    attrs_lookup(entries, key) is Some
}

impl AttributeSet {
    /// The empty attribute set.
    pub fn new() -> (r: Self)
        ensures
            r@ =~= Seq::<(Seq<char>, AttrVal)>::empty(),
    {
        AttributeSet { entries: Vec::new() }
    }

    /// How many attributes were detected.
    pub fn len(&self) -> (r: usize)
        ensures
            r == self@.len(),
    {
        self.entries.len()
    }

    /// Add an attribute.
    pub fn push(&mut self, key: &str, value: AttrValue)
        ensures
            final(self)@ =~= old(self)@.push((key@, attr_val_view(value))),
    {
        self.entries.push((key.to_owned(), value));
    }

    /// Add a string-valued attribute.
    pub fn push_text(&mut self, key: &str, value: &str)
        ensures
            final(self)@ =~= old(self)@.push((key@, AttrVal::Text(value@))),
    {
        self.entries.push((key.to_owned(), AttrValue::Str(value.to_owned())));
    }

    /// The value stored under `key`, if any.
    pub fn get(&self, key: &str) -> (r: Option<&AttrValue>)
        ensures
            match attrs_lookup(self@, key@) {
                Some(v) => r matches Some(x) && attr_val_view(*x) == v,
                None => r is None,
            },
    {
        proof {
            assert(self@.skip(0) =~= self@);
        }
        let mut j: usize = 0;
        while j < self.entries.len()
            invariant
                self@.len() == self.entries@.len(),
                j <= self.entries@.len(),
                attrs_lookup(self@, key@) == attrs_lookup(self@.skip(j as int), key@),
            decreases self.entries@.len() - j,
        {
            proof {
                assert(self@.skip(j as int)[0] == self@[j as int]);
                assert(self@.skip(j as int).drop_first() =~= self@.skip(j + 1));
            }
            if str_eq(self.entries[j].0.as_str(), key) {
                return Some(&self.entries[j].1);
            }
            j = j + 1;
        }
        None
    }

    /// Whether any attribute has this key.
    pub fn contains_key(&self, key: &str) -> (r: bool)
        ensures
            r == attrs_has(self@, key@),
    {
        match self.get(key) {
            Some(_) => true,
            None => false,
        }
    }
}

/// Looking a key up in a concatenation: the left part answers when it has
/// the key, else the right part does.
pub proof fn lemma_lookup_append(
    a: Seq<(Seq<char>, AttrVal)>,
    b: Seq<(Seq<char>, AttrVal)>,
    key: Seq<char>,
)
    ensures
        attrs_lookup(a + b, key) == if attrs_has(a, key) {
            attrs_lookup(a, key)
        } else {
            attrs_lookup(b, key)
        },
    decreases a.len(),
{
    if a.len() == 0 {
        assert(a + b =~= b);
    } else {
        assert((a + b)[0] == a[0]);
        assert((a + b).drop_first() =~= a.drop_first() + b);
        lemma_lookup_append(a.drop_first(), b, key);
    }
}

/// Lookup in a one-entry sequence.
pub proof fn lemma_lookup1(e1: (Seq<char>, AttrVal), key: Seq<char>)
    ensures
        attrs_lookup(seq![e1], key) == if e1.0 == key {
            Some(e1.1)
        } else {
            None::<AttrVal>
        },
{
    let s = seq![e1];
    assert(s.len() == 1);
    assert(s[0] == e1);
    assert(s.drop_first() =~= Seq::<(Seq<char>, AttrVal)>::empty());
    assert(attrs_lookup(Seq::<(Seq<char>, AttrVal)>::empty(), key) is None);
}

/// Lookup in a two-entry sequence.
pub proof fn lemma_lookup2(e1: (Seq<char>, AttrVal), e2: (Seq<char>, AttrVal), key: Seq<char>)
    ensures
        attrs_lookup(seq![e1, e2], key) == if e1.0 == key {
            Some(e1.1)
        } else if e2.0 == key {
            Some(e2.1)
        } else {
            None::<AttrVal>
        },
{
    assert(seq![e1, e2].drop_first() =~= seq![e2]);
    lemma_lookup1(e2, key);
}

/// Lookup in a three-entry sequence.
pub proof fn lemma_lookup3(
    e1: (Seq<char>, AttrVal),
    e2: (Seq<char>, AttrVal),
    e3: (Seq<char>, AttrVal),
    key: Seq<char>,
)
    ensures
        attrs_lookup(seq![e1, e2, e3], key) == if e1.0 == key {
            Some(e1.1)
        } else if e2.0 == key {
            Some(e2.1)
        } else if e3.0 == key {
            Some(e3.1)
        } else {
            None::<AttrVal>
        },
{
    assert(seq![e1, e2, e3].drop_first() =~= seq![e2, e3]);
    lemma_lookup2(e2, e3, key);
}

/// Lookup in a four-entry sequence.
pub proof fn lemma_lookup4(
    e1: (Seq<char>, AttrVal),
    e2: (Seq<char>, AttrVal),
    e3: (Seq<char>, AttrVal),
    e4: (Seq<char>, AttrVal),
    key: Seq<char>,
)
    ensures
        attrs_lookup(seq![e1, e2, e3, e4], key) == if e1.0 == key {
            Some(e1.1)
        } else if e2.0 == key {
            Some(e2.1)
        } else if e3.0 == key {
            Some(e3.1)
        } else if e4.0 == key {
            Some(e4.1)
        } else {
            None::<AttrVal>
        },
{
    assert(seq![e1, e2, e3, e4].drop_first() =~= seq![e2, e3, e4]);
    lemma_lookup3(e2, e3, e4, key);
}

proof fn lemma_join_step(parts: Seq<Seq<char>>, i: int)
    requires
        0 <= i < parts.len(),
    ensures
        i == 0 ==> comma_join(parts.subrange(0, 1)) =~= parts[0],
        i > 0 ==> comma_join(parts.subrange(0, i + 1)) =~= comma_join(parts.subrange(0, i))
            + seq![','] + parts[i],
{
    let next = parts.subrange(0, i + 1);
    assert(next.drop_last() =~= parts.subrange(0, i));
    assert(next.last() == parts[i]);
}

} // verus!
