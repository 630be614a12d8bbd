//! A JSON document as plain values.

use vstd::prelude::*;

verus! {

/// A JSON value. A number is an [`JsonValue::Integer`] if it is a whole
/// number that fits 64 signed bits, and otherwise a [`JsonValue::Decimal`]
/// that keeps its text. The members of an object stay in their order.
#[derive(Debug)]
pub enum JsonValue {
    Null,
    Bool(bool),
    Integer(i64),
    Decimal(String),
    String(String),
    Array(Vec<JsonValue>),
    Object(Vec<(String, JsonValue)>),
}

/// The value of the first of `members` that is named `key`.
pub open spec fn first_named(members: Seq<(String, JsonValue)>, key: Seq<char>) -> Option<
    JsonValue,
>
    decreases members.len(),
{
    if members.len() == 0 {
        None
    } else if members[0].0@ == key {
        Some(members[0].1)
    } else {
        first_named(members.drop_first(), key)
    }
}

/// The member of the object `v` that is named `key`; none if `v` is no
/// object or has no such member.
pub open spec fn json_member(v: JsonValue, key: Seq<char>) -> Option<JsonValue> {
    match v {
        JsonValue::Object(members) => first_named(members@, key),
        _ => None,
    }
}

impl JsonValue {
    /// The member named `key` of an object: the first one, should the name
    /// occur more than once.
    #[verifier::loop_isolation(false)]
    pub fn member(&self, key: &str) -> (found: Option<&JsonValue>)
        ensures
            match found {
                Some(v) => json_member(*self, key@) == Some(*v),
                None => json_member(*self, key@) is None,
            },
    {
        match self {
            JsonValue::Object(members) => {
                let wanted = key.to_owned();
                let mut i: usize = 0;
                assert(members@.skip(0) =~= members@);
                while i < members.len()
                    invariant
                        i <= members.len(),
                        first_named(members@, key@) == first_named(members@.skip(i as int), key@),
                    decreases members.len() - i,
                {
                    let ghost rest = members@.skip(i as int);
                    assert(rest.drop_first() =~= members@.skip(i + 1));
                    if members[i].0 == wanted {
                        return Some(&members[i].1);
                    }
                    i += 1;
                }
                None
            },
            _ => None,
        }
    }
}

} // verus!
