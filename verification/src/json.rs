//! JSON values of debug configurations, held as plain data.
//!
//! Objects keep their members in a vector whose keys are unique; the order of
//! the members carries no meaning, as in the JSON maps that these values are
//! read from and written to.

use vstd::prelude::*;

use crate::text::str_eq;

verus! {

/// A JSON number: an integer, or the text of a number that has a fraction or
/// an exponent.
#[derive(Clone, Debug, PartialEq)]
pub enum JsonNumber {
    PosInt(u64),
    NegInt(i64),
    Float(String),
}

/// A JSON value.
#[derive(Debug, PartialEq)]
pub enum JsonValue {
    Null,
    Bool(bool),
    Number(JsonNumber),
    Str(String),
    Array(Vec<JsonValue>),
    Object(Vec<(String, JsonValue)>),
}

/// The value of the member `key` among `members`.
pub open spec fn lookup(members: Seq<(String, JsonValue)>, key: Seq<char>) -> Option<JsonValue>
    decreases members.len(),
{
    if members.len() == 0 {
        None
    } else if members[0].0@ == key {
        Some(members[0].1)
    } else {
        lookup(members.drop_first(), key)
    }
}

/// No two members share a key.
pub open spec fn keys_unique(members: Seq<(String, JsonValue)>) -> bool {
    forall|i: int, j: int|
        0 <= i < members.len() && 0 <= j < members.len() && i != j ==> #[trigger] members[i].0@
            != #[trigger] members[j].0@
}

/// The values of `items` are the strings `texts`.
pub open spec fn are_strs(items: Seq<JsonValue>, texts: Seq<Seq<char>>) -> bool {
    &&& items.len() == texts.len()
    &&& forall|i: int|
        0 <= i < items.len() ==> (#[trigger] items[i] matches JsonValue::Str(s) && s@ == texts[i])
}

/// Every one of `items` is well keyed.
pub open spec fn items_well_keyed(items: Seq<JsonValue>) -> bool
    decreases items,
{
    if items.len() == 0 {
        true
    } else {
        items[0].well_keyed() && items_well_keyed(items.subrange(1, items.len() as int))
    }
}

/// The value of every one of `members` is well keyed.
pub open spec fn members_well_keyed(members: Seq<(String, JsonValue)>) -> bool
    decreases members,
{
    if members.len() == 0 {
        true
    } else {
        members[0].1.well_keyed() && members_well_keyed(members.subrange(1, members.len() as int))
    }
}

impl JsonValue {
    /// The members of an object have unique keys; other values trivially
    /// do.
    pub open spec fn top_keys_unique(self) -> bool {
        match self {
            JsonValue::Object(members) => keys_unique(members@),
            _ => true,
        }
    }

    /// Every object in the value, however deeply nested, has unique keys, as
    /// in any JSON value that is read into a map.
    pub open spec fn well_keyed(self) -> bool
        decreases self,
    {
        match self {
            JsonValue::Array(items) => items_well_keyed(items@),
            JsonValue::Object(members) => keys_unique(members@) && members_well_keyed(members@),
            _ => true,
        }
    }

    /// The member `key` of an object; nothing for other values.
    pub open spec fn spec_get(self, key: Seq<char>) -> Option<JsonValue> {
        match self {
            JsonValue::Object(members) => lookup(members@, key),
            _ => None,
        }
    }

    /// The text of a string value.
    pub open spec fn spec_as_str(self) -> Option<Seq<char>> {
        match self {
            JsonValue::Str(s) => Some(s@),
            _ => None,
        }
    }

    /// The member `key` of an object.
    pub fn get(&self, key: &str) -> (r: Option<&JsonValue>)
        ensures
            match r {
                Some(v) => self.spec_get(key@) == Some(*v),
                None => self.spec_get(key@) is None,
            },
    {
        match self {
            JsonValue::Object(members) => match find_member(members, key) {
                Some(i) => Some(&members[i].1),
                None => None,
            },
            _ => None,
        }
    }

    /// The text of a string value.
    pub fn as_str(&self) -> (r: Option<&str>)
        ensures
            match r {
                Some(s) => self.spec_as_str() == Some(s@),
                None => self.spec_as_str() is None,
            },
    {
        match self {
            JsonValue::Str(s) => Some(s.as_str()),
            _ => None,
        }
    }

    /// Whether every object in the value has unique keys.
    pub fn has_unique_keys(&self) -> (r: bool)
        ensures
            r == self.well_keyed(),
        decreases self,
    {
        match self {
            JsonValue::Array(items) => {
                let n = items.len();
                let mut i: usize = 0;
                while i < n
                    invariant
                        i <= n,
                        n == items@.len(),
                        *self == JsonValue::Array(*items),
                        forall|j: int| 0 <= j < i ==> #[trigger] items@[j].well_keyed(),
                    decreases n - i,
                {
                    proof {
                        assert(decreases_to!(*self => self->Array_0));
                        assert(decreases_to!(*items => items@));
                        assert(decreases_to!(items@ => items@[i as int]));
                    }
                    if !items[i].has_unique_keys() {
                        proof {
                            lemma_items_well_keyed(items@);
                        }
                        return false;
                    }
                    i += 1;
                }
                proof {
                    lemma_items_well_keyed(items@);
                }
                true
            },
            JsonValue::Object(members) => {
                if !keys_distinct(members) {
                    return false;
                }
                let n = members.len();
                let mut i: usize = 0;
                while i < n
                    invariant
                        i <= n,
                        n == members@.len(),
                        *self == JsonValue::Object(*members),
                        keys_unique(members@),
                        forall|j: int| 0 <= j < i ==> #[trigger] members@[j].1.well_keyed(),
                    decreases n - i,
                {
                    proof {
                        assert(decreases_to!(*self => self->Object_0));
                        assert(decreases_to!(*members => members@));
                        assert(decreases_to!(members@ => members@[i as int]));
                        assert(decreases_to!(members@[i as int] => members@[i as int].1));
                    }
                    if !members[i].1.has_unique_keys() {
                        proof {
                            lemma_members_well_keyed(members@);
                        }
                        return false;
                    }
                    i += 1;
                }
                proof {
                    lemma_members_well_keyed(members@);
                }
                true
            },
            _ => true,
        }
    }
}

/// `items_well_keyed` holds of every item.
pub proof fn lemma_items_well_keyed(items: Seq<JsonValue>)
    ensures
        items_well_keyed(items) <==> forall|i: int| 0 <= i < items.len() ==> #[trigger] items[i].well_keyed(),
    decreases items.len(),
{
    if items.len() > 0 {
        let t = items.subrange(1, items.len() as int);
        lemma_items_well_keyed(t);
        assert(items_well_keyed(items) == (items[0].well_keyed() && items_well_keyed(t)));
        assert forall|i: int| 1 <= i < items.len() implies #[trigger] items[i] == t[i - 1] by {}
        if forall|i: int| 0 <= i < items.len() ==> #[trigger] items[i].well_keyed() {
            assert forall|i: int| 0 <= i < t.len() implies #[trigger] t[i].well_keyed() by {
                assert(items[i + 1] == t[i]);
            }
        }
    }
}

/// `members_well_keyed` holds of the value of every member.
pub proof fn lemma_members_well_keyed(members: Seq<(String, JsonValue)>)
    ensures
        members_well_keyed(members) <==> forall|i: int|
            0 <= i < members.len() ==> #[trigger] members[i].1.well_keyed(),
    decreases members.len(),
{
    if members.len() > 0 {
        let t = members.subrange(1, members.len() as int);
        lemma_members_well_keyed(t);
        assert(members_well_keyed(members) == (members[0].1.well_keyed() && members_well_keyed(t)));
        assert forall|i: int| 1 <= i < members.len() implies #[trigger] members[i] == t[i - 1] by {}
        if forall|i: int| 0 <= i < members.len() ==> #[trigger] members[i].1.well_keyed() {
            assert forall|i: int| 0 <= i < t.len() implies #[trigger] t[i].1.well_keyed() by {
                assert(members[i + 1] == t[i]);
            }
        }
    }
}

/// A value that a key has is the value of one of the members.
pub proof fn lemma_lookup_member(members: Seq<(String, JsonValue)>, key: Seq<char>)
    ensures
        lookup(members, key) is Some ==> exists|i: int|
            0 <= i < members.len() && #[trigger] members[i].1 == lookup(members, key)->0,
    decreases members.len(),
{
    if members.len() > 0 && members[0].0@ != key {
        let t = members.drop_first();
        lemma_lookup_member(t, key);
        if lookup(t, key) is Some {
            let i = choose|i: int| 0 <= i < t.len() && #[trigger] t[i].1 == lookup(t, key)->0;
            assert(members[i + 1] == t[i]);
        }
    } else if members.len() > 0 {
        assert(members[0].1 == lookup(members, key)->0);
    }
}

/// Whether no two of `members` share a key.
pub fn keys_distinct(members: &Vec<(String, JsonValue)>) -> (r: bool)
    ensures
        r == keys_unique(members@),
{
    let n = members.len();
    let mut i: usize = 0;
    while i < n
        invariant
            i <= n,
            n == members@.len(),
            forall|a: int, b: int|
                0 <= a < i && 0 <= b < n && a != b ==> #[trigger] members@[a].0@
                    != #[trigger] members@[b].0@,
        decreases n - i,
    {
        let mut j: usize = 0;
        while j < n
            invariant
                i < n,
                j <= n,
                n == members@.len(),
                forall|a: int, b: int|
                    0 <= a < i && 0 <= b < n && a != b ==> #[trigger] members@[a].0@
                        != #[trigger] members@[b].0@,
                forall|b: int| 0 <= b < j && b != i ==> members@[i as int].0@ != #[trigger] members@[b].0@,
            decreases n - j,
        {
            if j != i && str_eq(members[i].0.as_str(), members[j].0.as_str()) {
                assert(!keys_unique(members@));
                return false;
            }
            j += 1;
        }
        i += 1;
    }
    true
}

/// With unique keys, the value of a key is that of its member.
pub proof fn lemma_lookup_at(members: Seq<(String, JsonValue)>, key: Seq<char>, i: int)
    requires
        keys_unique(members),
        0 <= i < members.len(),
        members[i].0@ == key,
    ensures
        lookup(members, key) == Some(members[i].1),
    decreases members.len(),
{
    if i > 0 {
        let t = members.drop_first();
        assert(members[0].0@ != members[i].0@);
        assert forall|a: int, b: int|
            0 <= a < t.len() && 0 <= b < t.len() && a != b implies #[trigger] t[a].0@
            != #[trigger] t[b].0@ by {
            assert(t[a] == members[a + 1] && t[b] == members[b + 1]);
        }
        assert(t[i - 1] == members[i]);
        lemma_lookup_at(t, key, i - 1);
    }
}

/// A key that no member has has no value.
pub proof fn lemma_lookup_absent(members: Seq<(String, JsonValue)>, key: Seq<char>)
    requires
        forall|i: int| 0 <= i < members.len() ==> (#[trigger] members[i]).0@ != key,
    ensures
        lookup(members, key) is None,
    decreases members.len(),
{
    if members.len() > 0 {
        let t = members.drop_first();
        assert forall|i: int| 0 <= i < t.len() implies (#[trigger] t[i]).0@ != key by {
            assert(t[i] == members[i + 1]);
        }
        lemma_lookup_absent(t, key);
    }
}

/// The value of a member is that of the member with its key, or nothing.
pub proof fn lemma_lookup(members: Seq<(String, JsonValue)>, key: Seq<char>)
    requires
        keys_unique(members),
    ensures
        (exists|i: int| 0 <= i < members.len() && (#[trigger] members[i]).0@ == key)
            || lookup(members, key) is None,
        forall|i: int|
            0 <= i < members.len() && (#[trigger] members[i]).0@ == key ==> lookup(members, key)
                == Some(members[i].1),
{
    assert forall|i: int|
        0 <= i < members.len() && (#[trigger] members[i]).0@ == key implies lookup(members, key)
        == Some(members[i].1) by {
        lemma_lookup_at(members, key, i);
    }
    if !(exists|i: int| 0 <= i < members.len() && (#[trigger] members[i]).0@ == key) {
        lemma_lookup_absent(members, key);
    }
}

/// The index of the member `key`.
pub fn find_member(members: &Vec<(String, JsonValue)>, key: &str) -> (r: Option<usize>)
    ensures
        match r {
            Some(i) => i < members@.len() && members@[i as int].0@ == key@ && lookup(members@, key@)
                == Some(members@[i as int].1),
            None => lookup(members@, key@) is None && forall|i: int|
                0 <= i < members@.len() ==> (#[trigger] members@[i]).0@ != key@,
        },
{
    let n = members.len();
    let mut i: usize = 0;
    assert(members@.skip(0) =~= members@);
    while i < n
        invariant
            i <= n,
            n == members@.len(),
            forall|j: int| 0 <= j < i ==> (#[trigger] members@[j]).0@ != key@,
            lookup(members@, key@) == lookup(members@.skip(i as int), key@),
        decreases n - i,
    {
        let ghost rest = members@.skip(i as int);
        assert(rest[0] == members@[i as int]);
        assert(rest.drop_first() =~= members@.skip(i + 1));
        if str_eq(members[i].0.as_str(), key) {
            return Some(i);
        }
        i += 1;
    }
    proof {
        lemma_lookup_absent(members@, key@);
    }
    None
}

/// Sets the member `key` to `value`, in place of any value it had.
pub fn object_insert(members: &mut Vec<(String, JsonValue)>, key: String, value: JsonValue)
    requires
        keys_unique(old(members)@),
    ensures
        keys_unique(final(members)@),
        forall|k: Seq<char>|
            #[trigger] lookup(final(members)@, k) == if k == key@ {
                Some(value)
            } else {
                lookup(old(members)@, k)
            },
{
    let ghost key_view = key@;
    match find_member(members, key.as_str()) {
        Some(i) => {
            members.set(i, (key, value));
            let ghost e = final(members)@;
            proof {
                assert(e == old(members)@.update(i as int, (key, value)));
                assert forall|a: int, b: int|
                    0 <= a < e.len() && 0 <= b < e.len() && a != b implies #[trigger] e[a].0@
                    != #[trigger] e[b].0@ by {
                    if a != i && b != i {
                        assert(e[a] == old(members)@[a] && e[b] == old(members)@[b]);
                    } else if a == i {
                        assert(e[b] == old(members)@[b]);
                    } else {
                        assert(e[a] == old(members)@[a]);
                    }
                }
                assert forall|k: Seq<char>|
                    #[trigger] lookup(e, k) == if k == key_view {
                        Some(value)
                    } else {
                        lookup(old(members)@, k)
                    } by {
                    lemma_lookup(e, k);
                    lemma_lookup(old(members)@, k);
                    if k == key_view {
                        lemma_lookup_at(e, k, i as int);
                    } else {
                        if exists|j: int| 0 <= j < e.len() && (#[trigger] e[j]).0@ == k {
                            let j = choose|j: int| 0 <= j < e.len() && (#[trigger] e[j]).0@ == k;
                            assert(j != i);
                            assert(e[j] == old(members)@[j]);
                        } else {
                            assert forall|j: int|
                                0 <= j < old(members)@.len() implies (#[trigger] old(
                                members,
                            )@[j]).0@ != k by {
                                if j != i {
                                    assert(e[j] == old(members)@[j]);
                                }
                            }
                            lemma_lookup_absent(old(members)@, k);
                        }
                    }
                }
            }
        },
        None => {
            members.push((key, value));
            let ghost e = final(members)@;
            proof {
                assert(e == old(members)@.push((key, value)));
                let n = old(members)@.len();
                assert forall|a: int, b: int|
                    0 <= a < e.len() && 0 <= b < e.len() && a != b implies #[trigger] e[a].0@
                    != #[trigger] e[b].0@ by {
                    if a < n && b < n {
                        assert(e[a] == old(members)@[a] && e[b] == old(members)@[b]);
                    } else if a == n {
                        assert(e[b] == old(members)@[b]);
                    } else {
                        assert(e[a] == old(members)@[a]);
                    }
                }
                assert forall|k: Seq<char>|
                    #[trigger] lookup(e, k) == if k == key_view {
                        Some(value)
                    } else {
                        lookup(old(members)@, k)
                    } by {
                    lemma_lookup(e, k);
                    lemma_lookup(old(members)@, k);
                    if k == key_view {
                        lemma_lookup_at(e, k, n as int);
                    } else {
                        if exists|j: int| 0 <= j < e.len() && (#[trigger] e[j]).0@ == k {
                            let j = choose|j: int| 0 <= j < e.len() && (#[trigger] e[j]).0@ == k;
                            assert(j != n);
                            assert(e[j] == old(members)@[j]);
                        } else {
                            assert forall|j: int|
                                0 <= j < n implies (#[trigger] old(members)@[j]).0@ != k by {
                                assert(e[j] == old(members)@[j]);
                            }
                            lemma_lookup_absent(old(members)@, k);
                        }
                    }
                }
            }
        },
    }
}

/// Removes the member `key`, returning its value.
pub fn object_remove(members: &mut Vec<(String, JsonValue)>, key: &str) -> (r: Option<JsonValue>)
    requires
        keys_unique(old(members)@),
    ensures
        r == lookup(old(members)@, key@),
        keys_unique(final(members)@),
        forall|k: Seq<char>|
            #[trigger] lookup(final(members)@, k) == if k == key@ {
                None
            } else {
                lookup(old(members)@, k)
            },
{
    match find_member(members, key) {
        Some(i) => {
            let (_, value) = members.remove(i);
            let ghost o = old(members)@;
            let ghost e = final(members)@;
            proof {
                assert(e == o.remove(i as int));
                assert forall|a: int| 0 <= a < e.len() implies #[trigger] e[a] == if a < i {
                    o[a]
                } else {
                    o[a + 1]
                } by {}
                assert forall|a: int, b: int|
                    0 <= a < e.len() && 0 <= b < e.len() && a != b implies #[trigger] e[a].0@
                    != #[trigger] e[b].0@ by {
                    let a2 = if a < i {
                        a
                    } else {
                        a + 1
                    };
                    let b2 = if b < i {
                        b
                    } else {
                        b + 1
                    };
                    assert(e[a] == o[a2] && e[b] == o[b2]);
                }
                assert forall|k: Seq<char>|
                    #[trigger] lookup(e, k) == if k == key@ {
                        None
                    } else {
                        lookup(o, k)
                    } by {
                    lemma_lookup(e, k);
                    lemma_lookup(o, k);
                    if exists|j: int| 0 <= j < e.len() && (#[trigger] e[j]).0@ == k {
                        let j = choose|j: int| 0 <= j < e.len() && (#[trigger] e[j]).0@ == k;
                        let j2 = if j < i {
                            j
                        } else {
                            j + 1
                        };
                        assert(e[j] == o[j2]);
                        assert(j2 != i);
                    } else {
                        if k != key@ {
                            assert forall|j: int|
                                0 <= j < o.len() implies (#[trigger] o[j]).0@ != k by {
                                if j < i {
                                    assert(e[j] == o[j]);
                                } else if j > i {
                                    assert(e[j - 1] == o[j]);
                                }
                            }
                            lemma_lookup_absent(o, k);
                        }
                    }
                }
            }
            Some(value)
        },
        None => None,
    }
}

} // verus!
