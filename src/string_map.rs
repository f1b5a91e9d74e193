use vstd::prelude::*;

use crate::error::Error;
use crate::json::{decode_error, str_eq, JsonDecode, JsonEncode, JsonValue};
use crate::text::{json_text, members_text};

verus! {

/// A map from names to text values, kept as pairs in insertion order.
///
/// When a name occurs more than once the last pair counts, as it does for the
/// members of a JSON object.
#[derive(Debug)]
pub struct StringMap {
    pub entries: Vec<(String, String)>,
}

/// The map that a sequence of pairs stands for; a later pair overrides an
/// earlier one of the same name.
pub open spec fn map_of(pairs: Seq<(String, String)>) -> Map<Seq<char>, Seq<char>>
    decreases pairs.len(),
{
    if pairs.len() == 0 {
        Map::empty()
    } else {
        map_of(pairs.drop_last()).insert(pairs.last().0@, pairs.last().1@)
    }
}

proof fn lemma_update_last_occurrence(s: Seq<(String, String)>, i: int, p: (String, String))
    requires
        0 <= i < s.len(),
        s[i].0@ == p.0@,
        forall|k: int| i < k < s.len() ==> (#[trigger] s[k]).0@ != p.0@,
    ensures
        map_of(s.update(i, p)) =~= map_of(s).insert(p.0@, p.1@),
    decreases s.len(),
{
    let u = s.update(i, p);
    if i == s.len() - 1 {
        assert(u.drop_last() =~= s.drop_last());
    } else {
        assert(u.drop_last() =~= s.drop_last().update(i, p));
        lemma_update_last_occurrence(s.drop_last(), i, p);
        assert(s.last().0@ != p.0@);
    }
}

impl View for StringMap {
    type V = Map<Seq<char>, Seq<char>>;

    open spec fn view(&self) -> Map<Seq<char>, Seq<char>> {
        map_of(self.entries@)
    }
}

impl StringMap {
    pub fn new() -> (r: StringMap)
        ensures
            r.entries@.len() == 0,
            r@ == Map::<Seq<char>, Seq<char>>::empty(),
    {
        StringMap { entries: Vec::new() }
    }

    /// Sets `key` to `value`: the last pair of that name gets the new value, or
    /// a pair is added at the end.
    pub fn insert(&mut self, key: String, value: String)
        ensures
            final(self)@ == old(self)@.insert(key@, value@),
            old(self)@.contains_key(key@) ==> final(self).entries@.len() == old(self).entries@.len(),
            !old(self)@.contains_key(key@) ==> final(self).entries@ == old(self).entries@.push((key, value)),
    {
        let mut i: usize = self.entries.len();
        while i > 0
            invariant
                i <= self.entries.len(),
                self.entries@ == old(self).entries@,
                forall|k: int| i <= k < self.entries@.len() ==> (#[trigger] self.entries@[k]).0@ != key@,
            decreases i,
        {
            if str_eq(self.entries[i - 1].0.as_str(), key.as_str()) {
                proof {
                    lemma_update_last_occurrence(self.entries@, i - 1, (key, value));
                    lemma_lookup_last_occurrence(self.entries@, i - 1, key@);
                }
                self.entries.set(i - 1, (key, value));
                return;
            }
            i = i - 1;
        }
        proof {
            lemma_absent_key(self.entries@, key@);
            assert(self.entries@.push((key, value)).drop_last() =~= self.entries@);
        }
        self.entries.push((key, value));
    }

    /// The value of `key`, if the map has one.
    pub fn get(&self, key: &str) -> (r: Option<&String>)
        ensures
            match r {
                Some(v) => self@.contains_key(key@) && self@[key@] == v@,
                None => !self@.contains_key(key@),
            },
    {
        let mut i: usize = self.entries.len();
        while i > 0
            invariant
                i <= self.entries.len(),
                forall|k: int| i <= k < self.entries@.len() ==> (#[trigger] self.entries@[k]).0@ != key@,
            decreases i,
        {
            if str_eq(self.entries[i - 1].0.as_str(), key) {
                proof {
                    lemma_lookup_last_occurrence(self.entries@, i - 1, key@);
                }
                return Some(&self.entries[i - 1].1);
            }
            i = i - 1;
        }
        proof {
            lemma_absent_key(self.entries@, key@);
        }
        None
    }

    /// A copy holding the same pairs.
    pub fn cloned(&self) -> (r: StringMap)
        ensures
            r.entries@ == self.entries@,
    {
        let mut entries: Vec<(String, String)> = Vec::new();
        let mut i: usize = 0;
        while i < self.entries.len()
            invariant
                i <= self.entries.len(),
                entries@ == self.entries@.subrange(0, i as int),
            decreases self.entries.len() - i,
        {
            entries.push((self.entries[i].0.clone(), self.entries[i].1.clone()));
            i = i + 1;
            assert(entries@ =~= self.entries@.subrange(0, i as int));
        }
        assert(entries@ =~= self.entries@);
        StringMap { entries }
    }

    /// The number of pairs held.
    pub fn len(&self) -> (r: usize)
        ensures
            r == self.entries@.len(),
    {
        self.entries.len()
    }
}

proof fn lemma_absent_key(s: Seq<(String, String)>, key: Seq<char>)
    requires
        forall|k: int| 0 <= k < s.len() ==> (#[trigger] s[k]).0@ != key,
    ensures
        !map_of(s).contains_key(key),
    decreases s.len(),
{
    if s.len() > 0 {
        assert(s.last().0@ != key);
        assert forall|k: int| 0 <= k < s.drop_last().len() implies (#[trigger] s.drop_last()[k]).0@ != key by {
            assert(s.drop_last()[k] == s[k]);
        }
        lemma_absent_key(s.drop_last(), key);
    }
}

proof fn lemma_lookup_last_occurrence(s: Seq<(String, String)>, i: int, key: Seq<char>)
    requires
        0 <= i < s.len(),
        s[i].0@ == key,
        forall|k: int| i < k < s.len() ==> (#[trigger] s[k]).0@ != key,
    ensures
        map_of(s).contains_key(key),
        map_of(s)[key] == s[i].1@,
    decreases s.len(),
{
    if i < s.len() - 1 {
        assert(s.last().0@ != key);
        assert forall|k: int| i < k < s.drop_last().len() implies (#[trigger] s.drop_last()[k]).0@ != key by {
            assert(s.drop_last()[k] == s[k]);
        }
        lemma_lookup_last_occurrence(s.drop_last(), i, key);
    }
}

/// A JSON object whose members are all strings stands for the map with those
/// pairs, in document order.
impl JsonDecode for StringMap {
    open spec fn decodes(j: JsonValue, v: StringMap) -> bool {
        &&& j is Object
        &&& j->Object_0@.len() == v.entries@.len()
        &&& forall|i: int|
            0 <= i < v.entries@.len() ==> {
                let m = #[trigger] j->Object_0@[i];
                &&& m.0@ == v.entries@[i].0@
                &&& m.1 is Str
                &&& m.1->Str_0@ == v.entries@[i].1@
            }
    }

    fn decode(j: &JsonValue) -> (r: Result<StringMap, Error>) {
        match j {
            JsonValue::Object(members) => {
                let mut out: Vec<(String, String)> = Vec::new();
                let mut i: usize = 0;
                while i < members.len()
                    invariant
                        *j == JsonValue::Object(*members),
                        i <= members.len(),
                        out@.len() == i,
                        forall|k: int|
                            0 <= k < i ==> {
                                let m = #[trigger] members@[k];
                                &&& m.0@ == out@[k].0@
                                &&& m.1 is Str
                                &&& m.1->Str_0@ == out@[k].1@
                            },
                    decreases members.len() - i,
                {
                    match &members[i].1 {
                        JsonValue::Str(s) => {
                            out.push((members[i].0.clone(), s.clone()));
                        },
                        _ => {
                            assert forall|v: StringMap| !#[trigger] Self::decodes(*j, v) by {
                                if Self::decodes(*j, v) {
                                    assert(j->Object_0@[i as int] == members@[i as int]);
                                }
                            }
                            return Err(decode_error("an object of strings"));
                        },
                    }
                    i = i + 1;
                }
                Ok(StringMap { entries: out })
            },
            _ => Err(decode_error("an object")),
        }
    }
}

impl JsonEncode for StringMap {
    fn to_json(&self) -> (r: JsonValue) {
        let mut members: Vec<(String, JsonValue)> = Vec::new();
        let mut i: usize = 0;
        while i < self.entries.len()
            invariant
                i <= self.entries.len(),
                members@.len() == i,
                forall|k: int|
                    0 <= k < i ==> {
                        let m = #[trigger] members@[k];
                        &&& m.0@ == self.entries@[k].0@
                        &&& m.1 is Str
                        &&& m.1->Str_0@ == self.entries@[k].1@
                    },
            decreases self.entries.len() - i,
        {
            let name = self.entries[i].0.clone();
            let value = self.entries[i].1.clone();
            members.push((name, JsonValue::Str(value)));
            i = i + 1;
        }
        JsonValue::Object(members)
    }

    proof fn lemma_same_text(a: JsonValue, b: JsonValue, v: StringMap) {
        assert forall|i: int| 0 <= i < a->Object_0@.len() implies {
            &&& (#[trigger] a->Object_0@[i]).0@ == b->Object_0@[i].0@
            &&& a->Object_0@[i].1 is Str
            &&& b->Object_0@[i].1 is Str
            &&& a->Object_0@[i].1->Str_0@ == b->Object_0@[i].1->Str_0@
        } by {
            assert(a->Object_0@[i].0@ == v.entries@[i].0@);
            assert(b->Object_0@[i].0@ == v.entries@[i].0@);
        }
        lemma_members_same_text(a->Object_0@, b->Object_0@, a->Object_0@.len());
    }
}

proof fn lemma_members_same_text(a: Seq<(String, JsonValue)>, b: Seq<(String, JsonValue)>, n: nat)
    requires
        a.len() == b.len(),
        n <= a.len(),
        forall|i: int|
            0 <= i < a.len() ==> {
                &&& (#[trigger] a[i]).0@ == b[i].0@
                &&& a[i].1 is Str
                &&& b[i].1 is Str
                &&& a[i].1->Str_0@ == b[i].1->Str_0@
            },
    ensures
        members_text(a, n) == members_text(b, n),
    decreases n,
{
    if n > 1 {
        lemma_members_same_text(a, b, (n - 1) as nat);
    }
    if n >= 1 {
        assert(json_text(a[n - 1].1) == json_text(b[n - 1].1));
        assert(json_text(a[0].1) == json_text(b[0].1));
    }
}

} // verus!
