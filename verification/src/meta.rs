//! The metadata document: a JSON-like value tree, and the path lookup used to
//! read fields out of it.

use vstd::prelude::*;

use crate::strutil::{index_of_key, parse_usize, str_eq};

verus! {

/// A JSON-like value. Numbers are carried as their decimal text: nothing in
/// the detection logic reads a number as a number, so no precision is lost.
#[derive(Debug, PartialEq)]
pub enum MetaValue {
    Null,
    Bool(bool),
    Num(String),
    Str(String),
    Arr(Vec<MetaValue>),
    Obj(Vec<(String, MetaValue)>),
}

/// The value under `key` among `fields`: the first binding whose name equals
/// `key`, as an object lookup finds it.
pub open spec fn obj_lookup(fields: Seq<(String, MetaValue)>, key: Seq<char>) -> Option<
    MetaValue,
>
    decreases fields.len(),
{
    if fields.len() == 0 {
        None
    } else if fields[0].0@ == key {
        Some(fields[0].1)
    } else {
        obj_lookup(fields.drop_first(), key)
    }
}

/// Walk `v` along `keys`. A key that denotes an array index (a decimal number
/// fitting `usize`) indexes an array; any other key names an object field. A
/// missing index, missing field, or a node of the wrong kind ends the walk
/// with no result.
pub open spec fn lookup_path(v: MetaValue, keys: Seq<Seq<char>>) -> Option<MetaValue>
    decreases keys.len(),
{
    if keys.len() == 0 {
        Some(v)
    } else {
        let key = keys[0];
        let rest = keys.drop_first();
        match index_of_key(key) {
            Some(i) => match v {
                MetaValue::Arr(items) => if 0 <= i < items@.len() {
                    lookup_path(items@[i], rest)
                } else {
                    None
                },
                _ => None,
            },
            None => match v {
                MetaValue::Obj(fields) => match obj_lookup(fields@, key) {
                    Some(x) => lookup_path(x, rest),
                    None => None,
                },
                _ => None,
            },
        }
    }
}

fn obj_get<'a>(fields: &'a Vec<(String, MetaValue)>, key: &str) -> (r: Option<&'a MetaValue>)
    ensures
        match obj_lookup(fields@, key@) {
            Some(v) => r matches Some(x) && *x == v,
            None => r is None,
        },
{
    proof {
        assert(fields@.skip(0) =~= fields@);
    }
    let mut j: usize = 0;
    while j < fields.len()
        invariant
            j <= fields@.len(),
            obj_lookup(fields@, key@) == obj_lookup(fields@.skip(j as int), key@),
        decreases fields@.len() - j,
    {
        proof {
            assert(fields@.skip(j as int)[0] == fields@[j as int]);
            assert(fields@.skip(j as int).drop_first() =~= fields@.skip(j + 1));
        }
        if str_eq(fields[j].0.as_str(), key) {
            return Some(&fields[j].1);
        }
        j = j + 1;
    }
    None
}

/// Follow `keys` into `data` and hand back the located node; when the walk
/// finds nothing, hand back `default`.
pub fn get_val<'a>(data: &'a MetaValue, keys: &[&str], default: Option<&'a MetaValue>) -> (r:
    Option<&'a MetaValue>)
    ensures
        match lookup_path(*data, keys@.map_values(|k: &str| k@)) {
            Some(v) => r matches Some(x) && *x == v,
            None => r == default,
        },
{
    let ghost kseq = keys@.map_values(|k: &str| k@);
    proof {
        assert(kseq.skip(0) =~= kseq);
    }
    let mut cur: &MetaValue = data;
    let mut i: usize = 0;
    while i < keys.len()
        invariant
            kseq == keys@.map_values(|k: &str| k@),
            i <= keys@.len(),
            lookup_path(*data, kseq) == lookup_path(*cur, kseq.skip(i as int)),
        decreases keys@.len() - i,
    {
        let key = keys[i];
        proof {
            assert(kseq.skip(i as int)[0] == kseq[i as int]);
            assert(kseq.skip(i as int).drop_first() =~= kseq.skip(i + 1));
        }
        match parse_usize(key) {
            Some(ix) => {
                match cur {
                    MetaValue::Arr(items) => {
                        if ix < items.len() {
                            cur = &items[ix];
                        } else {
                            return default;
                        }
                    },
                    _ => {
                        return default;
                    },
                }
            },
            None => {
                match cur {
                    MetaValue::Obj(fields) => {
                        match obj_get(fields, key) {
                            Some(x) => {
                                cur = x;
                            },
                            None => {
                                return default;
                            },
                        }
                    },
                    _ => {
                        return default;
                    },
                }
            },
        }
        i = i + 1;
    }
    proof {
        assert(kseq.skip(keys@.len() as int) =~= Seq::<Seq<char>>::empty());
    }
    Some(cur)
}

} // verus!
