use vstd::prelude::*;

use crate::error::Error;
use crate::text::json_text;

verus! {

/// A JSON document as the API sends and receives it.
///
/// Integers that fit in an `i64` are held as such; any other number keeps the
/// text of its literal. An object keeps its members in document order.
#[derive(Debug)]
pub enum JsonValue {
    Null,
    Bool(bool),
    Int(i64),
    OtherNumber(String),
    Str(String),
    Array(Vec<JsonValue>),
    Object(Vec<(String, JsonValue)>),
}

/// The value of member `key` of an object: the last member of that name, as a
/// JSON parser that keeps one value per key reads it.
pub open spec fn field_of(members: Seq<(String, JsonValue)>, key: Seq<char>) -> Option<JsonValue>
    decreases members.len(),
{
    if members.len() == 0 {
        None
    } else if members.last().0@ == key {
        Some(members.last().1)
    } else {
        field_of(members.drop_last(), key)
    }
}

/// Whether two strings hold the same characters.
pub fn str_eq(a: &str, b: &str) -> (r: bool)
    ensures
        r == (a@ == b@),
{
    let x = a.to_owned();
    let y = b.to_owned();
    x == y
}

/// Looks member `key` up in the members of an object.
pub fn lookup<'a>(members: &'a Vec<(String, JsonValue)>, key: &str) -> (r: Option<&'a JsonValue>)
    ensures
        match r {
            Some(v) => field_of(members@, key@) == Some(*v),
            None => field_of(members@, key@) is None,
        },
{
    let mut i: usize = members.len();
    assert(members@.subrange(0, i as int) =~= members@);
    while i > 0
        invariant
            i <= members.len(),
            field_of(members@, key@) == field_of(members@.subrange(0, i as int), key@),
        decreases i,
    {
        let ghost prefix = members@.subrange(0, i as int);
        assert(prefix.drop_last() =~= members@.subrange(0, i - 1));
        if str_eq(members[i - 1].0.as_str(), key) {
            return Some(&members[i - 1].1);
        }
        i = i - 1;
    }
    None
}

/// A type that can be read from a JSON document.
///
/// `decodes(j, v)` says that document `j` stands for value `v`. `decode` finds
/// that value, and fails with a decoding error exactly when there is none.
pub trait JsonDecode: Sized {
    spec fn decodes(j: JsonValue, v: Self) -> bool;

    fn decode(j: &JsonValue) -> (r: Result<Self, Error>)
        ensures
            match r {
                Ok(v) => Self::decodes(*j, v),
                Err(e) => e is Decode && forall|v: Self| !#[trigger] Self::decodes(*j, v),
            };
}

pub fn decode_error(what: &str) -> (e: Error)
    ensures
        e is Decode,
{
    Error::Decode(what.to_owned())
}

impl JsonDecode for String {
    open spec fn decodes(j: JsonValue, v: String) -> bool {
        j is Str && j->Str_0@ == v@
    }

    fn decode(j: &JsonValue) -> (r: Result<String, Error>) {
        match j {
            JsonValue::Str(s) => Ok(s.clone()),
            _ => Err(decode_error("a string")),
        }
    }
}

impl JsonDecode for bool {
    open spec fn decodes(j: JsonValue, v: bool) -> bool {
        j == JsonValue::Bool(v)
    }

    fn decode(j: &JsonValue) -> (r: Result<bool, Error>) {
        match j {
            JsonValue::Bool(b) => Ok(*b),
            _ => Err(decode_error("a boolean")),
        }
    }
}

impl JsonDecode for i32 {
    open spec fn decodes(j: JsonValue, v: i32) -> bool {
        j == JsonValue::Int(v as i64)
    }

    fn decode(j: &JsonValue) -> (r: Result<i32, Error>) {
        match j {
            JsonValue::Int(n) => {
                if i32::MIN as i64 <= *n && *n <= i32::MAX as i64 {
                    Ok(*n as i32)
                } else {
                    Err(decode_error("a 32-bit integer"))
                }
            },
            _ => Err(decode_error("an integer")),
        }
    }
}

/// `null` stands for `None`; any other document for `Some` of what it decodes to.
impl<T: JsonDecode> JsonDecode for Option<T> {
    open spec fn decodes(j: JsonValue, v: Option<T>) -> bool {
        match v {
            None => j is Null,
            Some(x) => !(j is Null) && T::decodes(j, x),
        }
    }

    fn decode(j: &JsonValue) -> (r: Result<Option<T>, Error>) {
        match j {
            JsonValue::Null => Ok(None),
            _ => match T::decode(j) {
                Ok(x) => Ok(Some(x)),
                Err(e) => {
                    assert forall|v: Option<T>| !#[trigger] Self::decodes(*j, v) by {
                        if let Some(x) = v {
                            assert(!T::decodes(*j, x));
                        }
                    }
                    Err(e)
                },
            },
        }
    }
}

/// An array stands for the vector of what its elements decode to, in order.
impl<T: JsonDecode> JsonDecode for Vec<T> {
    open spec fn decodes(j: JsonValue, v: Vec<T>) -> bool {
        &&& j is Array
        &&& j->Array_0@.len() == v@.len()
        &&& forall|i: int| 0 <= i < v@.len() ==> T::decodes(#[trigger] j->Array_0@[i], v@[i])
    }

    fn decode(j: &JsonValue) -> (r: Result<Vec<T>, Error>) {
        match j {
            JsonValue::Array(items) => {
                let mut out: Vec<T> = Vec::new();
                let mut i: usize = 0;
                while i < items.len()
                    invariant
                        *j == JsonValue::Array(*items),
                        i <= items.len(),
                        out@.len() == i,
                        forall|k: int| 0 <= k < i ==> T::decodes(#[trigger] items@[k], out@[k]),
                    decreases items.len() - i,
                {
                    match T::decode(&items[i]) {
                        Ok(x) => out.push(x),
                        Err(e) => {
                            assert forall|v: Vec<T>| !#[trigger] Self::decodes(*j, v) by {
                                if Self::decodes(*j, v) {
                                    assert(j->Array_0@ == items@);
                                    assert(T::decodes(j->Array_0@[i as int], v@[i as int]));
                                }
                            }
                            return Err(e);
                        },
                    }
                    i = i + 1;
                }
                Ok(out)
            },
            _ => Err(decode_error("an array")),
        }
    }
}

/// Member `key` is present and decodes to `v`.
pub open spec fn has_field<T: JsonDecode>(members: Seq<(String, JsonValue)>, key: Seq<char>, v: T) -> bool {
    match field_of(members, key) {
        Some(x) => T::decodes(x, v),
        None => false,
    }
}

/// Member `key` is absent and `v` is `None`, or it is present and decodes to `v`.
pub open spec fn has_opt_field<T: JsonDecode>(
    members: Seq<(String, JsonValue)>,
    key: Seq<char>,
    v: Option<T>,
) -> bool {
    match field_of(members, key) {
        Some(x) => Option::<T>::decodes(x, v),
        None => v is None,
    }
}

/// Reads a member that must be present.
pub fn read_required<T: JsonDecode>(members: &Vec<(String, JsonValue)>, key: &str) -> (r: Result<T, Error>)
    ensures
        match r {
            Ok(v) => has_field(members@, key@, v),
            Err(e) => e is Decode && forall|v: T| !#[trigger] has_field(members@, key@, v),
        },
{
    match lookup(members, key) {
        Some(x) => T::decode(x),
        None => Err(Error::Decode(key.to_owned())),
    }
}

/// Reads a member that may be absent or `null`.
pub fn read_optional<T: JsonDecode>(members: &Vec<(String, JsonValue)>, key: &str) -> (r: Result<
    Option<T>,
    Error,
>)
    ensures
        match r {
            Ok(v) => has_opt_field(members@, key@, v),
            Err(e) => e is Decode && forall|v: Option<T>| !#[trigger] has_opt_field(members@, key@, v),
        },
{
    match lookup(members, key) {
        Some(x) => Option::<T>::decode(x),
        None => Ok(None),
    }
}

/// The members of a document that must be an object.
pub fn members_of(j: &JsonValue) -> (r: Result<&Vec<(String, JsonValue)>, Error>)
    ensures
        match r {
            Ok(m) => *j == JsonValue::Object(*m),
            Err(e) => e is Decode && !(j is Object),
        },
{
    match j {
        JsonValue::Object(m) => Ok(m),
        _ => Err(decode_error("an object")),
    }
}

/// A type that can be written as a JSON document. The document written is the
/// one that `decodes` relates to the value, and it is never `null`.
pub trait JsonEncode: JsonDecode {
    fn to_json(&self) -> (r: JsonValue)
        ensures
            Self::decodes(r, *self),
            !(r is Null);

    /// Two documents that stand for the same value have the same text.
    proof fn lemma_same_text(a: JsonValue, b: JsonValue, v: Self)
        requires
            Self::decodes(a, v),
            Self::decodes(b, v),
        ensures
            json_text(a) == json_text(b),
            !(a is Null),
    ;
}

impl JsonEncode for String {
    fn to_json(&self) -> (r: JsonValue) {
        JsonValue::Str(self.clone())
    }

    proof fn lemma_same_text(a: JsonValue, b: JsonValue, v: String) {
    }
}

impl JsonEncode for bool {
    fn to_json(&self) -> (r: JsonValue) {
        JsonValue::Bool(*self)
    }

    proof fn lemma_same_text(a: JsonValue, b: JsonValue, v: bool) {
    }
}

impl JsonEncode for i32 {
    fn to_json(&self) -> (r: JsonValue) {
        JsonValue::Int(*self as i64)
    }

    proof fn lemma_same_text(a: JsonValue, b: JsonValue, v: i32) {
    }
}

/// Writes an optional value: `null` for `None`.
pub fn opt_to_json<T: JsonEncode>(v: &Option<T>) -> (r: JsonValue)
    ensures
        Option::<T>::decodes(r, *v),
{
    match v {
        Some(x) => x.to_json(),
        None => JsonValue::Null,
    }
}

/// Two documents that stand for the same optional value have the same text.
pub proof fn lemma_opt_same_text<T: JsonEncode>(a: JsonValue, b: JsonValue, v: Option<T>)
    requires
        Option::<T>::decodes(a, v),
        Option::<T>::decodes(b, v),
    ensures
        json_text(a) == json_text(b),
{
    if let Some(x) = v {
        T::lemma_same_text(a, b, x);
    }
}

/// Member `k` of an object is named `key` and holds the document of `v`.
pub open spec fn member_is<T: JsonDecode>(members: Seq<(String, JsonValue)>, k: int, key: Seq<char>, v: T) -> bool {
    &&& members[k].0@ == key
    &&& T::decodes(members[k].1, v)
}

} // verus!
