//! The tag-indexed cache store: string values under string keys, each key
//! carrying a set of tags, with bulk removal and lookup by tag.

use crate::concurrent_map::{
    clear_members, clear_values, get_members, get_value, insert_members, insert_value, member_map,
    new_member_map, new_value_map, remove_members, remove_value, value_map, Members, Values,
};
use crate::text::{
    add_missing_texts, copy_texts, distinct_texts, lemma_text_set_empty, lemma_text_set_push,
    text_set, without_text, Text,
};
use dashmap::DashMap;
use std::collections::HashSet;
use tokio_util::sync::CancellationToken;
use vstd::prelude::*;

verus! {

/// What a store holds under one key.
pub struct CacheEntry {
    pub value: Text,
    pub tags: Set<Text>,
}

/// A store as contracts see it: the entry under each key that is present.
pub type CacheModel = Map<Text, CacheEntry>;

/// Whether an entry carries at least one of `tags`.
pub open spec fn entry_matches(entry: CacheEntry, tags: Set<Text>) -> bool {
    exists|tag: Text| #[trigger] tags.contains(tag) && entry.tags.contains(tag)
}

/// The keys that are present and carry at least one of `tags`.
pub open spec fn keys_matching(model: CacheModel, tags: Set<Text>) -> Set<Text> {
    Set::new(|key: Text| model.contains_key(key) && entry_matches(model[key], tags))
}

/// The keys that are present and carry `tag`.
pub open spec fn keys_tagged(model: CacheModel, tag: Text) -> Set<Text> {
    Set::new(|key: Text| model.contains_key(key) && model[key].tags.contains(tag))
}

/// The store without the entries that carry `tag`.
pub open spec fn without_tag(model: CacheModel, tag: Text) -> CacheModel {
    model.remove_keys(keys_tagged(model, tag))
}

/// Whether `pairs` lists, once each and with its value, exactly the keys of
/// `model` that carry at least one of `tags`.
pub open spec fn lists_matching(pairs: Seq<(String, String)>, model: CacheModel, tags: Set<Text>)
    -> bool {
    &&& forall|i: int|
        0 <= i < pairs.len() ==> keys_matching(model, tags).contains((#[trigger] pairs[i]).0@)
            && pairs[i].1@ == model[pairs[i].0@].value
    &&& forall|key: Text|
        keys_matching(model, tags).contains(key) ==> exists|i: int|
            0 <= i < pairs.len() && (#[trigger] pairs[i]).0@ == key
    &&& forall|i: int, j: int|
        0 <= i < j < pairs.len() ==> (#[trigger] pairs[i]).0@ != (#[trigger] pairs[j]).0@
}

/// Why a store could not carry out an operation.
#[derive(Debug, Clone, Copy, PartialEq, Eq, Structural)]
pub enum CacheError {
    /// The caller's cancellation signal was observed.
    Cancelled,
    /// The backing store failed.
    Backend,
}

/// What any backing store offers: an in-memory one, a persistent one, a
/// remote one. An operation that reports success has done what its contract
/// says of the model; whether it succeeds is the store's to decide.
pub trait CacheRepositoryTrait {
    /// What the store holds.
    spec fn model(&self) -> CacheModel;

    /// The store's own consistency condition.
    spec fn valid(&self) -> bool;

    /// Whether every operation on this store succeeds. A store that can fail
    /// (on cancellation, on its backend) says `false`.
    spec fn never_fails(&self) -> bool;

    /// Puts `value` under `key` with exactly `tags`; an earlier entry under
    /// `key`, tags included, is replaced.
    fn set(
        &mut self,
        key: &str,
        value: String,
        tags: Vec<String>,
        cancellation_token: CancellationToken,
    ) -> (outcome: Result<(), CacheError>)
        requires
            old(self).valid(),
        ensures
            final(self).valid(),
            final(self).never_fails() == old(self).never_fails(),
            old(self).never_fails() ==> outcome is Ok,
            outcome is Ok ==> final(self).model() == old(self).model().insert(
                key@,
                (CacheEntry { value: value@, tags: text_set(tags@) }),
            ),
    ;

    /// Deletes the entry under `key`, if there is one.
    fn remove(&mut self, key: &str, cancellation_token: CancellationToken) -> (outcome: Result<
        (),
        CacheError,
    >)
        requires
            old(self).valid(),
        ensures
            final(self).valid(),
            final(self).never_fails() == old(self).never_fails(),
            old(self).never_fails() ==> outcome is Ok,
            outcome is Ok ==> final(self).model() == old(self).model().remove(key@),
    ;

    /// Deletes every entry that carries `tag`.
    fn remove_by_tag(&mut self, tag: &str, cancellation_token: CancellationToken) -> (outcome:
        Result<(), CacheError>)
        requires
            old(self).valid(),
        ensures
            final(self).valid(),
            final(self).never_fails() == old(self).never_fails(),
            old(self).never_fails() ==> outcome is Ok,
            outcome is Ok ==> final(self).model() == without_tag(old(self).model(), tag@),
    ;

    /// Empties the store.
    fn clear(&mut self) -> (outcome: Result<(), CacheError>)
        requires
            old(self).valid(),
        ensures
            final(self).valid(),
            final(self).never_fails() == old(self).never_fails(),
            old(self).never_fails() ==> outcome is Ok,
            outcome is Ok ==> final(self).model() == CacheModel::empty(),
    ;

    /// The value under `key`, if the key is present.
    fn try_get(&self, key: &str, cancellation_token: CancellationToken) -> (outcome: Result<
        Option<String>,
        CacheError,
    >)
        requires
            self.valid(),
        ensures
            self.never_fails() ==> outcome is Ok,
            outcome matches Ok(found) ==> (found is Some <==> self.model().contains_key(key@)),
            outcome matches Ok(Some(value)) ==> value@ == self.model()[key@].value,
    ;

    /// The entries that carry at least one of `tags`, each once.
    fn get_by_tags(&self, tags: Vec<String>, cancellation_token: CancellationToken) -> (outcome:
        Result<Vec<(String, String)>, CacheError>)
        requires
            self.valid(),
        ensures
            self.never_fails() ==> outcome is Ok,
            outcome matches Ok(pairs) ==> lists_matching(pairs@, self.model(), text_set(tags@)),
    ;
}

/// Whether `index` lists `member` under `owner`.
pub open spec fn relates(index: Members, owner: Text, member: Text) -> bool {
    index.contains_key(owner) && index[owner].contains(member)
}

/// Lists `member` under `owner`, making the owner's set if it has none.
fn link(index: &mut DashMap<String, HashSet<String>>, owner: &String, member: &String)
    ensures
        forall|o: Text, m: Text| #[trigger]
            relates(member_map(*final(index)), o, m) <==> relates(member_map(*old(index)), o, m)
                || (o == owner@ && m == member@),
{
    let mut members = match get_members(index, owner.as_str()) {
        Some(listed) => listed,
        None => {
            proof {
                lemma_text_set_empty();
            }
            Vec::new()
        },
    };
    let ghost before = members@;
    let copy = member.clone();
    members.push(copy);
    proof {
        lemma_text_set_push(before, copy);
    }
    insert_members(index, owner.clone(), members);
}

/// Strikes `member` from the set of `owner`, if the owner has a set.
fn unlink(index: &mut DashMap<String, HashSet<String>>, owner: &String, member: &String)
    ensures
        forall|o: Text, m: Text| #[trigger]
            relates(member_map(*final(index)), o, m) <==> relates(member_map(*old(index)), o, m)
                && !(o == owner@ && m == member@),
{
    match get_members(index, owner.as_str()) {
        Some(listed) => {
            let kept = without_text(&listed, member);
            insert_members(index, owner.clone(), kept);
        },
        None => {},
    }
}

/// The in-memory store. It keeps the values, and the tags twice over: under
/// each key its tags (the forward index), and under each tag the keys that
/// carry it (the reverse index).
pub struct InMemoryCacheRepository {
    entries: DashMap<String, String>,
    key_to_tags: DashMap<String, HashSet<String>>,
    tag_to_keys: DashMap<String, HashSet<String>>,
}

impl InMemoryCacheRepository {
    /// The value under each key.
    pub closed spec fn values(&self) -> Values {
        value_map(self.entries)
    }

    /// The tags under each key.
    pub closed spec fn forward_index(&self) -> Members {
        member_map(self.key_to_tags)
    }

    /// The keys under each tag.
    pub closed spec fn reverse_index(&self) -> Members {
        member_map(self.tag_to_keys)
    }

    /// The two indices describe one relation: a key lists a tag exactly when
    /// the tag lists the key.
    pub open spec fn indices_agree(&self) -> bool {
        forall|key: Text, tag: Text|
            #![trigger relates(self.forward_index(), key, tag)]
            #![trigger relates(self.reverse_index(), tag, key)]
            relates(self.forward_index(), key, tag) <==> relates(self.reverse_index(), tag, key)
    }

    /// An empty store.
    pub fn new() -> (store: Self)
        ensures
            store.valid(),
            store.model() == CacheModel::empty(),
    {
        let store = Self {
            entries: new_value_map(),
            key_to_tags: new_member_map(),
            tag_to_keys: new_member_map(),
        };
        proof {
            assert(store.values().dom() =~= store.forward_index().dom());
            assert(store.model() =~= CacheModel::empty());
        }
        store
    }

    /// Takes `key` out of both indices and leaves the values alone.
    fn detach(&mut self, key: &String)
        requires
            old(self).indices_agree(),
        ensures
            final(self).indices_agree(),
            final(self).values() == old(self).values(),
            final(self).forward_index() == old(self).forward_index().remove(key@),
            forall|tag: Text, other: Text| #[trigger]
                relates(final(self).reverse_index(), tag, other) <==> relates(
                    old(self).reverse_index(),
                    tag,
                    other,
                ) && other != key@,
    {
        let ghost forward = self.forward_index();
        let ghost reverse = self.reverse_index();
        match remove_members(&mut self.key_to_tags, key.as_str()) {
            Some(old_tags) => {
                let mut i: usize = 0;
                proof {
                    lemma_text_set_empty();
                    assert(old_tags@.take(0) =~= Seq::<String>::empty());
                }
                while i < old_tags.len()
                    invariant
                        i <= old_tags.len(),
                        self.values() == old(self).values(),
                        self.forward_index() == forward.remove(key@),
                        forall|tag: Text, other: Text| #[trigger]
                            relates(self.reverse_index(), tag, other) <==> relates(
                                reverse,
                                tag,
                                other,
                            ) && !(other == key@ && text_set(old_tags@.take(i as int)).contains(
                                tag,
                            )),
                    decreases old_tags.len() - i,
                {
                    proof {
                        assert(old_tags@.take(i + 1) =~= old_tags@.take(i as int).push(
                            old_tags@[i as int],
                        ));
                        lemma_text_set_push(old_tags@.take(i as int), old_tags@[i as int]);
                    }
                    let ghost earlier = self.reverse_index();
                    unlink(&mut self.tag_to_keys, &old_tags[i], key);
                    proof {
                        assert forall|tag: Text, other: Text| #[trigger]
                            relates(self.reverse_index(), tag, other) <==> relates(
                                reverse,
                                tag,
                                other,
                            ) && !(other == key@ && text_set(old_tags@.take(i + 1)).contains(
                                tag,
                            )) by {
                            assert(relates(self.reverse_index(), tag, other) <==> relates(
                                earlier,
                                tag,
                                other,
                            ) && !(tag == old_tags@[i as int]@ && other == key@));
                        }
                    }
                    i += 1;
                }
                proof {
                    assert(old_tags@.take(old_tags@.len() as int) =~= old_tags@);
                    assert forall|tag: Text, other: Text| #[trigger]
                        relates(self.reverse_index(), tag, other) <==> relates(
                            reverse,
                            tag,
                            other,
                        ) && other != key@ by {
                        assert(relates(forward, key@, tag) <==> relates(reverse, tag, key@));
                    }
                }
            },
            None => {
                proof {
                    assert(self.forward_index() =~= forward.remove(key@));
                    assert forall|tag: Text, other: Text| #[trigger]
                        relates(self.reverse_index(), tag, other) <==> relates(
                            reverse,
                            tag,
                            other,
                        ) && other != key@ by {
                        assert(relates(forward, key@, tag) <==> relates(reverse, tag, key@));
                    }
                }
            },
        }
        proof {
            assert forall|k: Text, tag: Text|
                relates(self.forward_index(), k, tag) <==> relates(
                    self.reverse_index(),
                    tag,
                    k,
                ) by {
                assert(relates(forward, k, tag) <==> relates(reverse, tag, k));
            }
        }
    }

    /// Deletes the entry under `key` with all of its tag associations.
    fn remove_entry(&mut self, key: &String)
        requires
            old(self).valid(),
        ensures
            final(self).valid(),
            final(self).model() == old(self).model().remove(key@),
            forall|tag: Text, other: Text| #[trigger]
                relates(final(self).reverse_index(), tag, other) <==> relates(
                    old(self).reverse_index(),
                    tag,
                    other,
                ) && other != key@,
    {
        remove_value(&mut self.entries, key.as_str());
        self.detach(key);
        proof {
            assert(self.values().dom() =~= self.forward_index().dom());
            assert(self.model() =~= old(self).model().remove(key@));
        }
    }
}

impl CacheRepositoryTrait for InMemoryCacheRepository {
    open spec fn model(&self) -> CacheModel {
        Map::new(
            |key: Text| self.values().contains_key(key),
            |key: Text| CacheEntry { value: self.values()[key], tags: self.forward_index()[key] },
        )
    }

    open spec fn valid(&self) -> bool {
        &&& self.indices_agree()
        &&& self.values().dom() == self.forward_index().dom()
    }

    open spec fn never_fails(&self) -> bool {
        true
    }

    fn set(
        &mut self,
        key: &str,
        value: String,
        tags: Vec<String>,
        cancellation_token: CancellationToken,
    ) -> (outcome: Result<(), CacheError>)
        ensures
            forall|tag: Text| #[trigger]
                relates(final(self).reverse_index(), tag, key@) <==> text_set(tags@).contains(tag),
    {
        let key = key.to_owned();
        let ghost forward = self.forward_index();
        self.detach(&key);
        let ghost reverse = self.reverse_index();
        insert_value(&mut self.entries, key.clone(), value);
        insert_members(&mut self.key_to_tags, key.clone(), copy_texts(&tags));
        let mut i: usize = 0;
        proof {
            lemma_text_set_empty();
            assert(tags@.take(0) =~= Seq::<String>::empty());
        }
        while i < tags.len()
            invariant
                i <= tags.len(),
                self.values() == old(self).values().insert(key@, value@),
                self.forward_index() == forward.remove(key@).insert(key@, text_set(tags@)),
                forall|tag: Text, other: Text| #[trigger]
                    relates(self.reverse_index(), tag, other) <==> relates(reverse, tag, other) || (
                    other == key@ && text_set(tags@.take(i as int)).contains(tag)),
            decreases tags.len() - i,
        {
            proof {
                assert(tags@.take(i + 1) =~= tags@.take(i as int).push(tags@[i as int]));
                lemma_text_set_push(tags@.take(i as int), tags@[i as int]);
            }
            let ghost earlier = self.reverse_index();
            link(&mut self.tag_to_keys, &tags[i], &key);
            proof {
                assert forall|tag: Text, other: Text| #[trigger]
                    relates(self.reverse_index(), tag, other) <==> relates(reverse, tag, other) || (
                    other == key@ && text_set(tags@.take(i + 1)).contains(tag)) by {
                    assert(relates(self.reverse_index(), tag, other) <==> relates(
                        earlier,
                        tag,
                        other,
                    ) || (tag == tags@[i as int]@ && other == key@));
                }
            }
            i += 1;
        }
        proof {
            assert(tags@.take(tags@.len() as int) =~= tags@);
            assert forall|k: Text, tag: Text|
                relates(self.forward_index(), k, tag) <==> relates(
                    self.reverse_index(),
                    tag,
                    k,
                ) by {
                assert(relates(forward.remove(key@), k, tag) <==> relates(reverse, tag, k));
            }
            assert(self.values().dom() =~= self.forward_index().dom());
            assert(self.model() =~= old(self).model().insert(
                key@,
                CacheEntry { value: value@, tags: text_set(tags@) },
            ));
        }
        Ok(())
    }

    fn remove(&mut self, key: &str, cancellation_token: CancellationToken) -> (outcome: Result<
        (),
        CacheError,
    >)
    {
        let key = key.to_owned();
        self.remove_entry(&key);
        Ok(())
    }

    fn remove_by_tag(&mut self, tag: &str, cancellation_token: CancellationToken) -> (outcome:
        Result<(), CacheError>)
    {
        let ghost before = self.model();
        match get_members(&self.tag_to_keys, tag) {
            Some(keys) => {
                let mut i: usize = 0;
                proof {
                    lemma_text_set_empty();
                    assert(keys@.take(0) =~= Seq::<String>::empty());
                    assert(self.model() =~= before.remove_keys(text_set(keys@.take(0))));
                }
                while i < keys.len()
                    invariant
                        i <= keys.len(),
                        self.valid(),
                        self.model() == before.remove_keys(text_set(keys@.take(i as int))),
                        forall|other: Text|
                            relates(self.reverse_index(), tag@, other) ==> text_set(
                                keys@,
                            ).contains(other),
                    decreases keys.len() - i,
                {
                    proof {
                        assert(keys@.take(i + 1) =~= keys@.take(i as int).push(keys@[i as int]));
                        lemma_text_set_push(keys@.take(i as int), keys@[i as int]);
                    }
                    self.remove_entry(&keys[i]);
                    proof {
                        assert(self.model() =~= before.remove_keys(
                            text_set(keys@.take(i + 1)),
                        ));
                    }
                    i += 1;
                }
                proof {
                    assert(keys@.take(keys@.len() as int) =~= keys@);
                }
                let ghost forward = self.forward_index();
                let ghost reverse = self.reverse_index();
                remove_members(&mut self.tag_to_keys, tag);
                proof {
                    assert forall|k: Text, t: Text|
                        relates(self.forward_index(), k, t) <==> relates(
                            self.reverse_index(),
                            t,
                            k,
                        ) by {
                        assert(relates(forward, k, t) <==> relates(reverse, t, k));
                        if t == tag@ && relates(forward, k, t) {
                            assert(relates(reverse, tag@, k));
                            assert(text_set(keys@).contains(k));
                            assert(!self.model().contains_key(k));
                        }
                    }
                    assert forall|k: Text| #[trigger]
                        text_set(keys@).contains(k) <==> relates(
                            old(self).reverse_index(),
                            tag@,
                            k,
                        ) by {}
                    assert forall|k: Text| #[trigger]
                        keys_tagged(before, tag@).contains(k) <==> before.contains_key(k)
                            && text_set(keys@).contains(k) by {
                        assert(relates(old(self).forward_index(), k, tag@) <==> relates(
                            old(self).reverse_index(),
                            tag@,
                            k,
                        ));
                    }
                    assert(self.model() =~= without_tag(before, tag@));
                }
            },
            None => {
                proof {
                    assert forall|k: Text| !keys_tagged(before, tag@).contains(k) by {
                        assert(relates(self.forward_index(), k, tag@) <==> relates(
                            self.reverse_index(),
                            tag@,
                            k,
                        ));
                    }
                    assert(self.model() =~= without_tag(before, tag@));
                }
            },
        }
        Ok(())
    }

    fn clear(&mut self) -> (outcome: Result<(), CacheError>)
    {
        clear_values(&mut self.entries);
        clear_members(&mut self.key_to_tags);
        clear_members(&mut self.tag_to_keys);
        proof {
            assert(self.values().dom() =~= self.forward_index().dom());
            assert(self.model() =~= CacheModel::empty());
        }
        Ok(())
    }

    fn try_get(&self, key: &str, cancellation_token: CancellationToken) -> (outcome: Result<
        Option<String>,
        CacheError,
    >)
    {
        Ok(get_value(&self.entries, key))
    }

    fn get_by_tags(&self, tags: Vec<String>, cancellation_token: CancellationToken) -> (outcome:
        Result<Vec<(String, String)>, CacheError>)
    {
        let keys = self.keys_under(&tags);
        let mut pairs: Vec<(String, String)> = Vec::new();
        let mut i: usize = 0;
        while i < keys.len()
            invariant
                i <= keys.len(),
                self.valid(),
                text_set(keys@) == keys_matching(self.model(), text_set(tags@)),
                pairs@.len() == i,
                forall|j: int|
                    0 <= j < i ==> (#[trigger] pairs@[j]).0@ == keys@[j]@ && pairs@[j].1@
                        == self.values()[keys@[j]@],
            decreases keys.len() - i,
        {
            proof {
                assert(text_set(keys@).contains(keys@[i as int]@));
            }
            match get_value(&self.entries, keys[i].as_str()) {
                Some(value) => {
                    pairs.push((keys[i].clone(), value));
                },
                None => {
                    proof {
                        assert(false);
                    }
                },
            }
            i += 1;
        }
        proof {
            let wanted = keys_matching(self.model(), text_set(tags@));
            assert forall|j: int| 0 <= j < pairs@.len() implies wanted.contains(
                (#[trigger] pairs@[j]).0@,
            ) && pairs@[j].1@ == self.model()[pairs@[j].0@].value by {
                assert(text_set(keys@).contains(keys@[j]@));
            }
            assert forall|key: Text| wanted.contains(key) implies exists|j: int|
                0 <= j < pairs@.len() && (#[trigger] pairs@[j]).0@ == key by {
                assert(text_set(keys@).contains(key));
                let j = choose|j: int| 0 <= j < keys@.len() && (#[trigger] keys@[j])@ == key;
                assert(pairs@[j].0@ == key);
            }
            assert forall|j: int, l: int| 0 <= j < l < pairs@.len() implies (
            #[trigger] pairs@[j]).0@ != (#[trigger] pairs@[l]).0@ by {
                assert(keys@[j]@ != keys@[l]@);
            }
        }
        Ok(pairs)
    }
}

impl InMemoryCacheRepository {
    /// The keys listed in the reverse index under at least one of `tags`,
    /// each once. They are gathered in a list that holds no text twice: a
    /// hash set of strings could be neither reasoned about nor walked here.
    fn keys_under(&self, tags: &Vec<String>) -> (keys: Vec<String>)
        requires
            self.valid(),
        ensures
            distinct_texts(keys@),
            text_set(keys@) == keys_matching(self.model(), text_set(tags@)),
    {
        let mut keys: Vec<String> = Vec::new();
        let mut i: usize = 0;
        proof {
            lemma_text_set_empty();
            assert(tags@.take(0) =~= Seq::<String>::empty());
        }
        while i < tags.len()
            invariant
                i <= tags.len(),
                distinct_texts(keys@),
                forall|key: Text| #[trigger]
                    text_set(keys@).contains(key) <==> exists|tag: Text| #[trigger]
                        text_set(tags@.take(i as int)).contains(tag) && relates(
                            self.reverse_index(),
                            tag,
                            key,
                        ),
            decreases tags.len() - i,
        {
            let ghost seen = text_set(keys@);
            let ghost done = text_set(tags@.take(i as int));
            proof {
                assert(tags@.take(i + 1) =~= tags@.take(i as int).push(tags@[i as int]));
                lemma_text_set_push(tags@.take(i as int), tags@[i as int]);
            }
            match get_members(&self.tag_to_keys, tags[i].as_str()) {
                Some(listed) => {
                    add_missing_texts(&mut keys, &listed);
                },
                None => {},
            }
            proof {
                let now = text_set(tags@.take(i + 1));
                let tag_i = tags@[i as int]@;
                assert forall|key: Text| #[trigger]
                    text_set(keys@).contains(key) <==> exists|tag: Text| #[trigger]
                        now.contains(tag) && relates(self.reverse_index(), tag, key) by {
                    if text_set(keys@).contains(key) {
                        if seen.contains(key) {
                            let tag = choose|tag: Text| #[trigger]
                                done.contains(tag) && relates(self.reverse_index(), tag, key);
                            assert(now.contains(tag));
                        } else {
                            assert(now.contains(tag_i) && relates(
                                self.reverse_index(),
                                tag_i,
                                key,
                            ));
                        }
                    }
                    if exists|tag: Text| #[trigger]
                        now.contains(tag) && relates(self.reverse_index(), tag, key) {
                        let tag = choose|tag: Text| #[trigger]
                            now.contains(tag) && relates(self.reverse_index(), tag, key);
                        if tag != tag_i {
                            assert(done.contains(tag));
                        }
                    }
                }
            }
            i += 1;
        }
        proof {
            assert(tags@.take(tags@.len() as int) =~= tags@);
            let wanted = text_set(tags@);
            assert forall|key: Text|
                text_set(keys@).contains(key) <==> keys_matching(self.model(), wanted).contains(
                    key,
                ) by {
                if text_set(keys@).contains(key) {
                    let tag = choose|tag: Text| #[trigger]
                        wanted.contains(tag) && relates(self.reverse_index(), tag, key);
                    assert(relates(self.forward_index(), key, tag));
                    assert(self.forward_index().dom().contains(key));
                    assert(self.values().dom().contains(key));
                }
                if keys_matching(self.model(), wanted).contains(key) {
                    let tag = choose|tag: Text| #[trigger]
                        wanted.contains(tag) && self.model()[key].tags.contains(tag);
                    assert(self.values().dom().contains(key));
                    assert(self.forward_index().dom().contains(key));
                    assert(relates(self.forward_index(), key, tag));
                    assert(relates(self.reverse_index(), tag, key));
                }
            }
            assert(text_set(keys@) =~= keys_matching(self.model(), wanted));
        }
        keys
    }
}

impl InMemoryCacheRepository {
    /// The reverse index lists a key under a tag exactly when the key is
    /// present and carries the tag.
    pub proof fn lemma_reverse_index_follows_entries(&self, key: Text, tag: Text)
        requires
            self.valid(),
        ensures
            relates(self.reverse_index(), tag, key) <==> self.model().contains_key(key)
                && self.model()[key].tags.contains(tag),
            relates(self.forward_index(), key, tag) <==> relates(self.reverse_index(), tag, key),
    {
        assert(relates(self.forward_index(), key, tag) <==> relates(
            self.reverse_index(),
            tag,
            key,
        ));
        assert(self.values().dom().contains(key) <==> self.forward_index().dom().contains(key));
    }
}

/// A lookup by one tag lists exactly the keys that carry it.
pub proof fn lemma_lookup_by_one_tag(model: CacheModel, tags: Seq<String>)
    requires
        tags.len() == 1,
    ensures
        keys_matching(model, text_set(tags)) == keys_tagged(model, tags[0]@),
{
    let tag = tags[0]@;
    assert forall|key: Text|
        keys_matching(model, text_set(tags)).contains(key) <==> keys_tagged(model, tag).contains(
            key,
        ) by {
        if keys_matching(model, text_set(tags)).contains(key) {
            let found = choose|found: Text| #[trigger]
                text_set(tags).contains(found) && model[key].tags.contains(found);
            let i = choose|i: int| 0 <= i < tags.len() && (#[trigger] tags[i])@ == found;
            assert(found == tag);
        }
        if keys_tagged(model, tag).contains(key) {
            assert(text_set(tags).contains(tag));
        }
    }
    assert(keys_matching(model, text_set(tags)) =~= keys_tagged(model, tag));
}

/// Setting a key again leaves it under none of the tags that it carried
/// before and does not carry now: a lookup by such a tag no longer finds it.
pub proof fn lemma_set_again_drops_old_tags(
    model: CacheModel,
    key: Text,
    value: Text,
    new_tags: Set<Text>,
    old_tag: Text,
)
    requires
        !new_tags.contains(old_tag),
    ensures
        !keys_tagged(
            model.insert(key, CacheEntry { value, tags: new_tags }),
            old_tag,
        ).contains(key),
        forall|tags: Set<Text>|
            tags.disjoint(new_tags) ==> !(#[trigger] keys_matching(
                model.insert(key, CacheEntry { value, tags: new_tags }),
                tags,
            )).contains(key),
{
    let after = model.insert(key, CacheEntry { value, tags: new_tags });
    assert forall|tags: Set<Text>| tags.disjoint(new_tags) implies !(#[trigger] keys_matching(
        after,
        tags,
    )).contains(key) by {
        if keys_matching(after, tags).contains(key) {
            let tag = choose|tag: Text| #[trigger]
                tags.contains(tag) && after[key].tags.contains(tag);
            assert(new_tags.contains(tag));
        }
    }
}

/// Removal by tag takes away every key that carried the tag, whatever other
/// tags it carried, and leaves every other entry as it was: afterwards no
/// lookup, by any tags, finds a removed key.
pub proof fn lemma_remove_by_tag_is_thorough(model: CacheModel, tag: Text, key: Text)
    requires
        model.contains_key(key),
    ensures
        model[key].tags.contains(tag) ==> !without_tag(model, tag).contains_key(key),
        model[key].tags.contains(tag) ==> forall|tags: Set<Text>|
            !(#[trigger] keys_matching(without_tag(model, tag), tags)).contains(key),
        !model[key].tags.contains(tag) ==> without_tag(model, tag).contains_key(key)
            && without_tag(model, tag)[key] == model[key],
        keys_tagged(without_tag(model, tag), tag) == Set::<Text>::empty(),
{
    assert(keys_tagged(model, tag).contains(key) <==> model[key].tags.contains(tag));
    assert(keys_tagged(without_tag(model, tag), tag) =~= Set::<Text>::empty());
}

} // verus!
