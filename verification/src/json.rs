//! A model of the JSON objects the bridge answers requests with: members in
//! insertion order, one member per key.

use crate::number::Number;
use vstd::prelude::*;

verus! {

/// A JSON value as the bridge produces it.
#[derive(Debug)]
pub enum JsonValue {
    /// `null`.
    Null,
    /// A whole number.
    Integer(i64),
    /// A finite number that is not written as a whole number.
    Float(Number),
    /// A string.
    String(String),
}

/// The mathematical model of a [`JsonValue`].
pub enum JsonValueView {
    Null,
    Integer(i64),
    Float(Number),
    String(Seq<char>),
}

impl View for JsonValue {
    type V = JsonValueView;

    open spec fn view(&self) -> JsonValueView {
        match self {
            JsonValue::Null => JsonValueView::Null,
            JsonValue::Integer(k) => JsonValueView::Integer(*k),
            JsonValue::Float(n) => JsonValueView::Float(*n),
            JsonValue::String(s) => JsonValueView::String(s@),
        }
    }
}

/// The members of an object: keys with their values, in order.
pub type Members = Seq<(Seq<char>, JsonValueView)>;

/// Whether no key occurs twice among `members`.
pub open spec fn keys_distinct(members: Members) -> bool {
    forall|i: int, j: int| 0 <= i < j < members.len() ==> members[i].0 != members[j].0
}

/// Whether `key` occurs among `members`.
pub open spec fn has_key(members: Members, key: Seq<char>) -> bool {
    exists|i: int| 0 <= i < members.len() && #[trigger] members[i].0 == key
}

/// `members` after `key` was set to `value`: the member with that key keeps
/// its place and takes the new value; a new key goes to the end.
pub open spec fn with_member(members: Members, key: Seq<char>, value: JsonValueView) -> Members
    decreases members.len(),
{
    if members.len() == 0 {
        seq![(key, value)]
    } else if members.first().0 == key {
        seq![(key, value)] + members.drop_first()
    } else {
        seq![members.first()] + with_member(members.drop_first(), key, value)
    }
}

/// Setting a key that is not there appends it.
pub proof fn lemma_with_member_new(members: Members, key: Seq<char>, value: JsonValueView)
    requires
        !has_key(members, key),
    ensures
        with_member(members, key, value) == members.push((key, value)),
    decreases members.len(),
{
    if members.len() == 0 {
        assert(with_member(members, key, value) =~= members.push((key, value)));
    } else {
        let rest = members.drop_first();
        assert(members[0].0 != key);
        assert forall|i: int| 0 <= i < rest.len() implies #[trigger] rest[i].0 != key by {
            assert(rest[i] == members[i + 1]);
        }
        lemma_with_member_new(rest, key, value);
        assert(seq![members.first()] + rest.push((key, value)) =~= members.push((key, value)));
    }
}

/// Setting the key of the member at index `i`, which no earlier member has,
/// replaces that member.
pub proof fn lemma_with_member_at(
    members: Members,
    key: Seq<char>,
    value: JsonValueView,
    i: int,
)
    requires
        0 <= i < members.len(),
        members[i].0 == key,
        forall|j: int| 0 <= j < i ==> members[j].0 != key,
    ensures
        with_member(members, key, value) == members.update(i, (key, value)),
    decreases members.len(),
{
    let rest = members.drop_first();
    if i == 0 {
        assert(seq![(key, value)] + rest =~= members.update(0, (key, value)));
    } else {
        assert(members[0].0 != key);
        assert(rest[i - 1] == members[i]);
        assert forall|j: int| 0 <= j < i - 1 implies rest[j].0 != key by {
            assert(rest[j] == members[j + 1]);
        }
        lemma_with_member_at(rest, key, value, i - 1);
        assert(seq![members.first()] + rest.update(i - 1, (key, value)) =~= members.update(
            i,
            (key, value),
        ));
    }
}

/// Setting a member keeps the keys distinct.
pub proof fn lemma_with_member_distinct(members: Members, key: Seq<char>, value: JsonValueView)
    requires
        keys_distinct(members),
    ensures
        keys_distinct(with_member(members, key, value)),
{
    if has_key(members, key) {
        let i = choose|i: int| 0 <= i < members.len() && #[trigger] members[i].0 == key;
        lemma_with_member_at(members, key, value, i);
    } else {
        lemma_with_member_new(members, key, value);
    }
}

/// A JSON object: members in insertion order, no key twice.
#[derive(Debug)]
pub struct JsonObject {
    members: Vec<(String, JsonValue)>,
}

/// The model of a list of members.
pub open spec fn members_view(members: Seq<(String, JsonValue)>) -> Members {
    members.map_values(|m: (String, JsonValue)| (m.0@, m.1@))
}

impl View for JsonObject {
    type V = Members;

    closed spec fn view(&self) -> Members {
        members_view(self.members@)
    }
}

impl JsonObject {
    #[verifier::type_invariant]
    spec fn inv(self) -> bool {
        keys_distinct(members_view(self.members@))
    }

    /// An object without members.
    pub fn new() -> (r: JsonObject)
        ensures
            r@ == Members::empty(),
    {
        let r = JsonObject { members: Vec::new() };
        assert(r@ =~= Members::empty());
        r
    }

    /// Sets `key` to `value`.
    pub fn insert(&mut self, key: String, value: JsonValue)
        ensures
            final(self)@ == with_member(old(self)@, key@, value@),
    {
        let mut taken: JsonObject = JsonObject::new();
        std::mem::swap(self, &mut taken);
        proof {
            use_type_invariant(&taken);
            lemma_with_member_distinct(taken@, key@, value@);
        }
        let mut members: Vec<(String, JsonValue)> = taken.members;
        let ghost before = members_view(members@);
        let n: usize = members.len();
        let mut i: usize = 0;
        while i < n
            invariant
                i <= n == members@.len(),
                before == members_view(members@),
                before == old(self)@,
                keys_distinct(with_member(before, key@, value@)),
                forall|j: int| 0 <= j < i ==> before[j].0 != key@,
            decreases n - i,
        {
            if members[i].0 == key {
                proof {
                    lemma_with_member_at(before, key@, value@, i as int);
                }
                members.set(i, (key, value));
                assert(members_view(members@) =~= before.update(i as int, (key@, value@)));
                *self = JsonObject { members };
                return ;
            }
            i = i + 1;
        }
        proof {
            assert(!has_key(before, key@));
            lemma_with_member_new(before, key@, value@);
        }
        members.push((key, value));
        assert(members_view(members@) =~= before.push((key@, value@)));
        *self = JsonObject { members };
    }

    /// The members, in order.
    pub fn members(&self) -> (r: &Vec<(String, JsonValue)>)
        ensures
            members_view(r@) == self@,
            keys_distinct(self@),
    {
        proof {
            use_type_invariant(self);
        }
        &self.members
    }
}

} // verus!
