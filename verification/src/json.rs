use vstd::prelude::*;

verus! {

/// A JSON number as the wire format distinguishes it: non-negative integers,
/// negative integers, and floating-point values, the last carried by their
/// IEEE-754 bit pattern.
#[derive(Clone, Debug, PartialEq)]
pub enum JsonNumber {
    PosInt(u64),
    NegInt(i64),
    Float(u64),
}

/// A JSON document. Object members are kept in the order they are given
/// (`serde_json`'s default map hands them over sorted by name).
#[derive(Debug, PartialEq)]
pub enum Json {
    Null,
    Bool(bool),
    Number(JsonNumber),
    Str(String),
    Array(Vec<Json>),
    Object(Vec<(String, Json)>),
}

/// The value of the first member named `key`, if any.
pub open spec fn entry_lookup(entries: Seq<(String, Json)>, key: Seq<char>) -> Option<Json>
    decreases entries.len(),
{
    if entries.len() == 0 {
        None
    } else if entries[0].0@ == key {
        Some(entries[0].1)
    } else {
        entry_lookup(entries.drop_first(), key)
    }
}

/// Replacing a member whose name is not `key` by another member whose name is
/// not `key` leaves the lookup of `key` unchanged.
proof fn lemma_lookup_other_member(entries: Seq<(String, Json)>, i: int, replacement: (String, Json), key: Seq<char>)
    requires
        0 <= i < entries.len(),
        entries[i].0@ != key,
        replacement.0@ != key,
    ensures
        entry_lookup(entries.update(i, replacement), key) == entry_lookup(entries, key),
    decreases entries.len(),
{
    if i == 0 {
        assert(entries.update(0, replacement).drop_first() =~= entries.drop_first());
    } else {
        lemma_lookup_other_member(entries.drop_first(), i - 1, replacement, key);
        assert(entries.update(i, replacement).drop_first() =~= entries.drop_first().update(i - 1, replacement));
    }
}

/// Moves the value of the first member named `key` out of an object's members,
/// leaving `Json::Null` in its place, so that every other member is found as before.
pub fn take_entry(entries: &mut Vec<(String, Json)>, key: &str) -> (r: Option<Json>)
    ensures
        r == entry_lookup(old(entries)@, key@),
        forall|k: Seq<char>| k != key@ ==> entry_lookup(final(entries)@, k) == entry_lookup(old(entries)@, k),
{
    let k = String::from_str(key);
    let mut i: usize = 0;
    assert(entries@.skip(0) =~= entries@);
    while i < entries.len()
        invariant
            i <= entries@.len(),
            k@ == key@,
            entries@ == old(entries)@,
            entry_lookup(entries@, key@) == entry_lookup(entries@.skip(i as int), key@),
        decreases entries@.len() - i,
    {
        assert(entries@.skip(i as int).drop_first() =~= entries@.skip(i + 1));
        assert(entries@.skip(i as int)[0] == entries@[i as int]);
        if entries[i].0 == k {
            let ghost before = entries@;
            let (name, value) = entries.remove(i);
            entries.insert(i, (name, Json::Null));
            proof {
                assert(entries@ =~= before.update(i as int, (name, Json::Null)));
                assert forall|other: Seq<char>| other != key@ implies
                    entry_lookup(entries@, other) == entry_lookup(before, other) by {
                    lemma_lookup_other_member(before, i as int, (name, Json::Null), other);
                }
            }
            return Some(value);
        }
        i = i + 1;
    }
    None
}

impl Json {
    /// The member `key` of an object; nothing for any other value.
    pub open spec fn field(self, key: Seq<char>) -> Option<Json> {
        match self {
            Json::Object(entries) => entry_lookup(entries@, key),
            _ => None,
        }
    }

    /// The text of a string value.
    pub open spec fn str_view(self) -> Option<Seq<char>> {
        match self {
            Json::Str(s) => Some(s@),
            _ => None,
        }
    }

    /// The value of a non-negative integer.
    pub open spec fn u64_view(self) -> Option<u64> {
        match self {
            Json::Number(JsonNumber::PosInt(n)) => Some(n),
            _ => None,
        }
    }

    /// The elements of an array.
    pub open spec fn items(self) -> Option<Seq<Json>> {
        match self {
            Json::Array(v) => Some(v@),
            _ => None,
        }
    }

    /// The text of the string member `key`.
    pub open spec fn str_field(self, key: Seq<char>) -> Option<Seq<char>> {
        match self.field(key) {
            Some(v) => v.str_view(),
            None => None,
        }
    }

    /// The value of the non-negative integer member `key`.
    pub open spec fn u64_field(self, key: Seq<char>) -> Option<u64> {
        match self.field(key) {
            Some(v) => v.u64_view(),
            None => None,
        }
    }

    /// The elements of the array member `key`.
    pub open spec fn array_field(self, key: Seq<char>) -> Option<Seq<Json>> {
        match self.field(key) {
            Some(v) => v.items(),
            None => None,
        }
    }

    /// Looks up the member `key` of an object, as `serde_json::Value::get` does
    /// with a string index: any other kind of value has no members.
    pub fn get(&self, key: &str) -> (r: Option<&Json>)
        ensures
            match r {
                Some(v) => self.field(key@) == Some(*v),
                None => self.field(key@) is None,
            },
    {
        match self {
            Json::Object(entries) => {
                let k = String::from_str(key);
                let mut i: usize = 0;
                assert(entries@.skip(0) =~= entries@);
                while i < entries.len()
                    invariant
                        i <= entries@.len(),
                        k@ == key@,
                        self.field(key@) == entry_lookup(entries@, key@),
                        entry_lookup(entries@, key@) == entry_lookup(entries@.skip(i as int), key@),
                    decreases entries@.len() - i,
                {
                    assert(entries@.skip(i as int).drop_first() =~= entries@.skip(i + 1));
                    assert(entries@.skip(i as int)[0] == entries@[i as int]);
                    if entries[i].0 == k {
                        return Some(&entries[i].1);
                    }
                    i = i + 1;
                }
                None
            },
            _ => None,
        }
    }

    /// The string member `key`, which must be present.
    pub fn str_at(&self, key: &str) -> (s: &String)
        requires
            self.str_field(key@) is Some,
        ensures
            self.str_field(key@) == Some(s@),
    {
        match self.get(key) {
            Some(v) => match v.as_str() {
                Some(s) => s,
                None => vstd::pervasive::unreached(),
            },
            None => vstd::pervasive::unreached(),
        }
    }

    /// The non-negative integer member `key`, which must be present.
    pub fn u64_at(&self, key: &str) -> (n: u64)
        requires
            self.u64_field(key@) is Some,
        ensures
            self.u64_field(key@) == Some(n),
    {
        match self.get(key) {
            Some(v) => match v.as_u64() {
                Some(n) => n,
                None => vstd::pervasive::unreached(),
            },
            None => vstd::pervasive::unreached(),
        }
    }

    /// The text of a string value, as `serde_json::Value::as_str`.
    pub fn as_str(&self) -> (r: Option<&String>)
        ensures
            match r {
                Some(s) => self.str_view() == Some(s@),
                None => self.str_view() is None,
            },
    {
        match self {
            Json::Str(s) => Some(s),
            _ => None,
        }
    }

    /// The value of a non-negative integer, as `serde_json::Value::as_u64`.
    pub fn as_u64(&self) -> (r: Option<u64>)
        ensures
            r == self.u64_view(),
    {
        match self {
            Json::Number(JsonNumber::PosInt(n)) => Some(*n),
            _ => None,
        }
    }

    /// The elements of an array, as `serde_json::Value::as_array`.
    pub fn as_array(&self) -> (r: Option<&Vec<Json>>)
        ensures
            match r {
                Some(v) => self.items() == Some(v@),
                None => self.items() is None,
            },
    {
        match self {
            Json::Array(v) => Some(v),
            _ => None,
        }
    }
}

} // verus!
