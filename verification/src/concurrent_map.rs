//! The sharded concurrent maps that back the cache store, and what this
//! library takes for granted about them.
//!
//! A `DashMap` changes behind a shared reference. Here every call that changes
//! one takes it by `&mut`, so that a contract can tell the map before the call
//! from the map after it; sharing between tasks is left to the caller's lock.

use crate::text::{text_set, Text};
use dashmap::DashMap;
use std::collections::HashSet;
use vstd::prelude::*;

verus! {

#[verifier::external_type_specification]
#[verifier::external_body]
#[verifier::reject_recursive_types(K)]
#[verifier::reject_recursive_types(V)]
#[verifier::reject_recursive_types(S)]
pub struct ExDashMap<K, V, S>(DashMap<K, V, S>);

/// The mathematical content of a map from keys to values.
pub type Values = Map<Text, Text>;

/// The mathematical content of a map from an owner to its set of members.
pub type Members = Map<Text, Set<Text>>;

/// What a map from keys to values holds: each key with its value.
pub uninterp spec fn value_map(map: DashMap<String, String>) -> Map<Seq<char>, Seq<char>>;

/// What a map from owners to sets holds: each owner with the members of its set.
pub uninterp spec fn member_map(map: DashMap<String, HashSet<String>>) -> Map<
    Seq<char>,
    Set<Seq<char>>,
>;

/// `DashMap::new`: the map it makes holds nothing.
#[verifier::external_body]
pub(crate) fn new_value_map() -> (fresh: DashMap<String, String>)
    ensures
        value_map(fresh) == Values::empty(),
{
    DashMap::new()
}

/// `DashMap::insert`: afterwards the key is bound to the value, whatever it
/// was bound to before, and every other binding is as it was.
#[verifier::external_body]
pub(crate) fn insert_value(map: &mut DashMap<String, String>, key: String, value: String)
    ensures
        value_map(*final(map)) == value_map(*old(map)).insert(key@, value@),
{
    map.insert(key, value);
}

/// `DashMap::remove`: afterwards the key is unbound and every other binding
/// is as it was.
#[verifier::external_body]
pub(crate) fn remove_value(map: &mut DashMap<String, String>, key: &str)
    ensures
        value_map(*final(map)) == value_map(*old(map)).remove(key@),
{
    map.remove(key);
}

/// `DashMap::get`: a copy of the value bound to the key, if the key is bound.
#[verifier::external_body]
pub(crate) fn get_value(map: &DashMap<String, String>, key: &str) -> (value: Option<String>)
    ensures
        value is Some <==> value_map(*map).contains_key(key@),
        value is Some ==> value->0@ == value_map(*map)[key@],
{
    map.get(key).map(|entry| entry.value().clone())
}

/// `DashMap::clear`: afterwards the map holds nothing.
#[verifier::external_body]
pub(crate) fn clear_values(map: &mut DashMap<String, String>)
    ensures
        value_map(*final(map)) == Values::empty(),
{
    map.clear();
}

/// `DashMap::new`: the map it makes holds nothing.
#[verifier::external_body]
pub(crate) fn new_member_map() -> (fresh: DashMap<String, HashSet<String>>)
    ensures
        member_map(fresh) == Members::empty(),
{
    DashMap::new()
}

/// `DashMap::insert`: afterwards the owner is bound to the set of the listed
/// members, whatever it was bound to before, and every other binding is as it
/// was. The list is handed over as a hash set, which keeps one of each text.
#[verifier::external_body]
pub(crate) fn insert_members(
    map: &mut DashMap<String, HashSet<String>>,
    owner: String,
    members: Vec<String>,
)
    ensures
        member_map(*final(map)) == member_map(*old(map)).insert(owner@, text_set(members@)),
{
    map.insert(owner, members.into_iter().collect());
}

/// `DashMap::remove`: afterwards the owner is unbound and every other binding
/// is as it was. The set that was bound to it comes back as a list, in no
/// order that can be relied on.
#[verifier::external_body]
pub(crate) fn remove_members(map: &mut DashMap<String, HashSet<String>>, owner: &str) -> (members:
    Option<Vec<String>>)
    ensures
        member_map(*final(map)) == member_map(*old(map)).remove(owner@),
        members is Some <==> member_map(*old(map)).contains_key(owner@),
        members is Some ==> text_set(members->0@) == member_map(*old(map))[owner@],
{
    map.remove(owner).map(|(_, set)| set.into_iter().collect())
}

/// `DashMap::get`: a copy of the set bound to the owner, if the owner is
/// bound, as a list in no order that can be relied on.
#[verifier::external_body]
pub(crate) fn get_members(map: &DashMap<String, HashSet<String>>, owner: &str) -> (members: Option<
    Vec<String>,
>)
    ensures
        members is Some <==> member_map(*map).contains_key(owner@),
        members is Some ==> text_set(members->0@) == member_map(*map)[owner@],
{
    map.get(owner).map(|entry| entry.value().iter().cloned().collect())
}

/// `DashMap::clear`: afterwards the map holds nothing.
#[verifier::external_body]
pub(crate) fn clear_members(map: &mut DashMap<String, HashSet<String>>)
    ensures
        member_map(*final(map)) == Members::empty(),
{
    map.clear();
}

} // verus!
