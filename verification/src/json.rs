//! The crate's own model of a JSON value.
//!
//! A number is carried as the text of its literal: the client never does
//! arithmetic on the numbers it forwards, it only places them in a payload,
//! so the text is exactly what the logic needs and what the wire will see.

use vstd::prelude::*;

verus! {

/// Mathematical shape of a JSON value: the view of [`JsonValue`].
pub enum JsonVal {
    Null,
    Bool(bool),
    /// A number, as the text of its literal.
    Num(Seq<char>),
    Str(Seq<char>),
    Arr(Seq<JsonVal>),
    /// An object as an ordered list of key/value members.
    Obj(Seq<(Seq<char>, JsonVal)>),
}

/// A JSON value as the client carries it.
#[derive(Debug, PartialEq, Eq)]
pub enum JsonValue {
    Null,
    Bool(bool),
    /// A number, as the text of its literal.
    Num(String),
    Str(String),
    Arr(Vec<JsonValue>),
    /// An object as an ordered list of key/value members.
    Obj(Vec<(String, JsonValue)>),
}

pub open spec fn view_of(v: JsonValue) -> JsonVal
    decreases v, 1int,
{
    match v {
        JsonValue::Null => JsonVal::Null,
        JsonValue::Bool(b) => JsonVal::Bool(b),
        JsonValue::Num(s) => JsonVal::Num(s@),
        JsonValue::Str(s) => JsonVal::Str(s@),
        JsonValue::Arr(elems) => JsonVal::Arr(views_of(elems@)),
        JsonValue::Obj(members) => JsonVal::Obj(member_views_of(members@)),
    }
}

pub open spec fn views_of(elems: Seq<JsonValue>) -> Seq<JsonVal>
    decreases elems, 0int,
{
    if elems.len() == 0 {
        Seq::empty()
    } else {
        views_of(elems.drop_last()).push(view_of(elems.last()))
    }
}

pub open spec fn member_views_of(members: Seq<(String, JsonValue)>) -> Seq<(Seq<char>, JsonVal)>
    decreases members, 0int,
{
    if members.len() == 0 {
        Seq::empty()
    } else {
        member_views_of(members.drop_last()).push(
            (members.last().0@, view_of(members.last().1)),
        )
    }
}

impl View for JsonValue {
    type V = JsonVal;

    open spec fn view(&self) -> JsonVal {
        view_of(*self)
    }
}

pub proof fn lemma_views_of(elems: Seq<JsonValue>)
    ensures
        views_of(elems).len() == elems.len(),
        forall|i: int| 0 <= i < elems.len() ==> views_of(elems)[i] == view_of(elems[i]),
    decreases elems.len(),
{
    if elems.len() > 0 {
        lemma_views_of(elems.drop_last());
        assert forall|i: int| 0 <= i < elems.len() implies views_of(elems)[i] == view_of(
            elems[i],
        ) by {
            if i < elems.len() - 1 {
                assert(elems.drop_last()[i] == elems[i]);
            }
        }
    }
}

pub proof fn lemma_member_views_of(members: Seq<(String, JsonValue)>)
    ensures
        member_views_of(members).len() == members.len(),
        forall|i: int| 0 <= i < members.len() ==> member_views_of(members)[i] == (
            members[i].0@,
            view_of(members[i].1),
        ),
    decreases members.len(),
{
    if members.len() > 0 {
        lemma_member_views_of(members.drop_last());
        assert forall|i: int| 0 <= i < members.len() implies member_views_of(members)[i] == (
            members[i].0@,
            view_of(members[i].1),
        ) by {
            if i < members.len() - 1 {
                assert(members.drop_last()[i] == members[i]);
            }
        }
    }
}

/// The value under a key in an object, at its first occurrence;
/// `None` for a missing key or a non-object.
pub open spec fn obj_lookup(v: JsonVal, key: Seq<char>) -> Option<JsonVal> {
    match v {
        JsonVal::Obj(members) => lookup_members(members, key),
        _ => None,
    }
}

pub open spec fn lookup_members(members: Seq<(Seq<char>, JsonVal)>, key: Seq<char>) -> Option<
    JsonVal,
>
    decreases members.len(),
{
    if members.len() == 0 {
        None
    } else if members[0].0 == key {
        Some(members[0].1)
    } else {
        lookup_members(members.drop_first(), key)
    }
}

} // verus!
