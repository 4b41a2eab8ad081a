use vstd::prelude::*;

verus! {

/// A JSON document, as the online catalogues answer a request.
/// An object holds its members in order; a lookup takes the first member with the key.
/// A number is kept as the text of its literal: nothing here reads numbers.
#[derive(Debug)]
pub enum JsonValue {
    Null,
    Bool(bool),
    Number(String),
    Str(String),
    Array(Vec<JsonValue>),
    Object(Vec<(String, JsonValue)>),
}

/// The value of the first member named `key`, if there is one.
pub open spec fn member(members: Seq<(String, JsonValue)>, key: Seq<char>) -> Option<JsonValue>
    decreases members.len(),
{
    if members.len() == 0 {
        None
    } else if members[0].0@ == key {
        Some(members[0].1)
    } else {
        member(members.drop_first(), key)
    }
}

/// `value[key]`: the member named `key` of an object; null when there is none
/// or when the value is not an object.
pub open spec fn json_field(v: JsonValue, key: Seq<char>) -> JsonValue {
    match v {
        JsonValue::Object(members) => match member(members@, key) {
            Some(x) => x,
            None => JsonValue::Null,
        },
        _ => JsonValue::Null,
    }
}

/// The text of a string value.
pub open spec fn json_str(v: JsonValue) -> Option<Seq<char>> {
    match v {
        JsonValue::Str(s) => Some(s@),
        _ => None,
    }
}

/// The elements of an array value.
pub open spec fn json_array(v: JsonValue) -> Option<Seq<JsonValue>> {
    match v {
        JsonValue::Array(items) => Some(items@),
        _ => None,
    }
}

/// The text of the member named `key`, when it is a string.
pub open spec fn json_str_field(v: JsonValue, key: Seq<char>) -> Option<Seq<char>> {
    json_str(json_field(v, key))
}

impl JsonValue {
    /// `self[key]`: the member named `key`, or `None` where indexing gives null
    /// for want of such a member.
    pub fn get(&self, key: &String) -> (r: Option<&JsonValue>)
        ensures
            match r {
                Some(x) => json_field(*self, key@) == *x && self is Object
                    && member(self->Object_0@, key@) is Some,
                None => json_field(*self, key@) == JsonValue::Null && (self is Object
                    ==> member(self->Object_0@, key@) is None),
            },
    {
        match self {
            JsonValue::Object(members) => {
                let mut i: usize = 0;
                assert(members@.skip(0) =~= members@);
                while i < members.len()
                    invariant
                        self is Object && self->Object_0@ == members@,
                        i <= members@.len(),
                        member(members@, key@) == member(members@.skip(i as int), key@),
                    decreases members.len() - i,
                {
                    assert(members@.skip(i as int).drop_first() =~= members@.skip(i + 1));
                    assert(members@.skip(i as int)[0] == members@[i as int]);
                    if members[i].0 == *key {
                        return Some(&members[i].1);
                    }
                    i = i + 1;
                }
                None
            },
            _ => None,
        }
    }

    /// `self[key].as_str()`: the text of the member named `key`, when it is a string.
    pub fn str_field(&self, key: &String) -> (r: Option<&String>)
        ensures
            match r {
                Some(s) => json_str_field(*self, key@) == Some(s@),
                None => json_str_field(*self, key@) is None,
            },
    {
        match self.get(key) {
            Some(JsonValue::Str(s)) => Some(s),
            _ => None,
        }
    }

    /// `self[key].as_array()`: the elements of the member named `key`, when it is an array.
    pub fn array_field(&self, key: &String) -> (r: Option<&Vec<JsonValue>>)
        ensures
            match r {
                Some(items) => json_array(json_field(*self, key@)) == Some(items@),
                None => json_array(json_field(*self, key@)) is None,
            },
    {
        match self.get(key) {
            Some(JsonValue::Array(items)) => Some(items),
            _ => None,
        }
    }
}

} // verus!
