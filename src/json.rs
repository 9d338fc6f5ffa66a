//! A JSON value as the decoders read it, with field lookup by key and by a
//! prioritized list of alias keys.
use vstd::prelude::*;
use crate::text::str_eq;

verus! {

/// A JSON value. Numbers are kept as integers where they are integers;
/// a number with a fraction or an exponent is `Fractional`, whose value no
/// decoder reads. An object keeps its members in order.
#[derive(Debug)]
pub enum Json {
    Null,
    Bool(bool),
    UInt(u64),
    Int(i64),
    Fractional,
    Str(String),
    Array(Vec<Json>),
    Object(Vec<(String, Json)>),
}

/// The value of the first member named `key`.
pub open spec fn lookup(fields: Seq<(String, Json)>, key: Seq<char>) -> Option<Json>
    decreases fields.len(),
{
    if fields.len() == 0 {
        None
    } else if fields[0].0@ == key {
        Some(fields[0].1)
    } else {
        lookup(fields.drop_first(), key)
    }
}

pub open spec fn deref_opt(r: Option<&Json>) -> Option<Json> {
    match r {
        Some(v) => Some(*v),
        None => None,
    }
}

pub open spec fn chars_opt(r: Option<&str>) -> Option<Seq<char>> {
    match r {
        Some(t) => Some(t@),
        None => None,
    }
}

impl Json {
    /// The member `key` of an object; nothing for any other value.
    pub open spec fn field(self, key: Seq<char>) -> Option<Json> {
        match self {
            Json::Object(fields) => lookup(fields@, key),
            _ => None,
        }
    }

    /// The member under the first of `keys` that the object has.
    pub open spec fn field_any(self, keys: Seq<Seq<char>>) -> Option<Json>
        decreases keys.len(),
    {
        if keys.len() == 0 {
            None
        } else {
            match self.field(keys[0]) {
                Some(v) => Some(v),
                None => self.field_any(keys.drop_first()),
            }
        }
    }

    pub open spec fn str_of(self) -> Option<Seq<char>> {
        match self {
            Json::Str(s) => Some(s@),
            _ => None,
        }
    }

    /// A number that fits `i64`.
    pub open spec fn i64_of(self) -> Option<i64> {
        match self {
            Json::UInt(u) => if u <= i64::MAX {
                Some(u as i64)
            } else {
                None
            },
            Json::Int(i) => Some(i),
            _ => None,
        }
    }

    /// A non-negative integer.
    pub open spec fn u64_of(self) -> Option<u64> {
        match self {
            Json::UInt(u) => Some(u),
            _ => None,
        }
    }

    pub fn get(&self, key: &str) -> (r: Option<&Json>)
        ensures
            deref_opt(r) == self.field(key@),
    {
        match self {
            Json::Object(fields) => {
                let mut i: usize = 0;
                assert(fields@.skip(0) =~= fields@);
                while i < fields.len()
                    invariant
                        i <= fields@.len(),
                        self.field(key@) == lookup(fields@, key@),
                        lookup(fields@, key@) == lookup(fields@.skip(i as int), key@),
                    decreases fields@.len() - i,
                {
                    assert(fields@.skip(i as int).len() > 0);
                    assert(fields@.skip(i as int)[0] == fields@[i as int]);
                    assert(fields@.skip(i as int).drop_first() =~= fields@.skip(i + 1));
                    let entry = &fields[i];
                    if str_eq(entry.0.as_str(), key) {
                        assert(lookup(fields@.skip(i as int), key@) == Some(entry.1));
                        return Some(&entry.1);
                    }
                    i = i + 1;
                }
                None
            },
            _ => None,
        }
    }

    /// The member under `a`, else under `b`.
    pub fn get2(&self, a: &str, b: &str) -> (r: Option<&Json>)
        ensures
            deref_opt(r) == self.field_any(seq![a@, b@]),
    {
        let ghost keys = seq![a@, b@];
        assert(keys.drop_first() =~= seq![b@]);
        assert(keys.drop_first().drop_first() =~= Seq::<Seq<char>>::empty());
        reveal_with_fuel(Json::field_any, 3);
        match self.get(a) {
            Some(v) => Some(v),
            None => self.get(b),
        }
    }

    /// The member under `a`, else under `b`, else under `c`.
    pub fn get3(&self, a: &str, b: &str, c: &str) -> (r: Option<&Json>)
        ensures
            deref_opt(r) == self.field_any(seq![a@, b@, c@]),
    {
        let ghost keys = seq![a@, b@, c@];
        assert(keys.drop_first() =~= seq![b@, c@]);
        assert(seq![b@, c@].drop_first() =~= seq![c@]);
        assert(seq![c@].drop_first() =~= Seq::<Seq<char>>::empty());
        reveal_with_fuel(Json::field_any, 4);
        match self.get(a) {
            Some(v) => Some(v),
            None => match self.get(b) {
                Some(v) => Some(v),
                None => self.get(c),
            },
        }
    }

    pub fn as_str(&self) -> (r: Option<&str>)
        ensures
            chars_opt(r) == self.str_of(),
    {
        match self {
            Json::Str(s) => Some(s.as_str()),
            _ => None,
        }
    }

    pub fn as_i64(&self) -> (r: Option<i64>)
        ensures
            r == self.i64_of(),
    {
        match self {
            Json::UInt(u) => if *u <= 9223372036854775807u64 {
                Some(*u as i64)
            } else {
                None
            },
            Json::Int(i) => Some(*i),
            _ => None,
        }
    }

    pub fn as_u64(&self) -> (r: Option<u64>)
        ensures
            r == self.u64_of(),
    {
        match self {
            Json::UInt(u) => Some(*u),
            _ => None,
        }
    }
}

/// The member `key` of an object, taken out of it.
pub fn take_member(j: Json, key: &str) -> (r: Option<Json>)
    ensures
        r == j.field(key@),
{
    match j {
        Json::Object(fields) => {
            let mut fields = fields;
            let ghost all = fields@;
            let mut i: usize = 0;
            assert(all.skip(0) =~= all);
            while i < fields.len()
                invariant
                    fields@ == all,
                    j.field(key@) == lookup(all, key@),
                    i <= all.len(),
                    lookup(all, key@) == lookup(all.skip(i as int), key@),
                decreases all.len() - i,
            {
                assert(all.skip(i as int).len() > 0);
                assert(all.skip(i as int)[0] == all[i as int]);
                assert(all.skip(i as int).drop_first() =~= all.skip(i + 1));
                if str_eq(fields[i].0.as_str(), key) {
                    assert(lookup(all.skip(i as int), key@) == Some(all[i as int].1));
                    let (_, v) = fields.remove(i);
                    return Some(v);
                }
                i = i + 1;
            }
            None
        },
        _ => None,
    }
}

} // verus!
