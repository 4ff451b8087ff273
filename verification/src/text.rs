//! Lists of strings read as sets of texts.

use vstd::prelude::*;

verus! {

/// A string as contracts see it: its characters.
pub type Text = Seq<char>;

/// The texts that occur in a list of strings.
pub open spec fn text_set(items: Seq<String>) -> Set<Text> {
    Set::new(|text: Text| exists|i: int| 0 <= i < items.len() && (#[trigger] items[i])@ == text)
}

/// Whether no text occurs twice in a list of strings.
pub open spec fn distinct_texts(items: Seq<String>) -> bool {
    forall|i: int, j: int|
        0 <= i < j < items.len() ==> (#[trigger] items[i])@ != (#[trigger] items[j])@
}

/// The empty list holds no text.
pub proof fn lemma_text_set_empty()
    ensures
        text_set(Seq::<String>::empty()) == Set::<Text>::empty(),
{
    assert(text_set(Seq::<String>::empty()) =~= Set::<Text>::empty());
}

/// Appending a string adds its text and no other.
pub proof fn lemma_text_set_push(items: Seq<String>, item: String)
    ensures
        text_set(items.push(item)) == text_set(items).insert(item@),
{
    let longer = items.push(item);
    assert forall|text: Text| text_set(longer).contains(text) <==> text_set(items).insert(
        item@,
    ).contains(text) by {
        if text_set(longer).contains(text) {
            let i = choose|i: int| 0 <= i < longer.len() && (#[trigger] longer[i])@ == text;
            if i < items.len() {
                assert(items[i]@ == text);
            }
        }
        if text_set(items).contains(text) {
            let i = choose|i: int| 0 <= i < items.len() && (#[trigger] items[i])@ == text;
            assert(longer[i]@ == text);
        }
        if text == item@ {
            assert(longer[items.len() as int]@ == text);
        }
    }
    assert(text_set(longer) =~= text_set(items).insert(item@));
}

/// Whether `wanted` occurs in `items`.
pub(crate) fn contains_text(items: &Vec<String>, wanted: &String) -> (found: bool)
    ensures
        found == text_set(items@).contains(wanted@),
{
    let mut i: usize = 0;
    while i < items.len()
        invariant
            i <= items.len(),
            forall|j: int| 0 <= j < i ==> (#[trigger] items@[j])@ != wanted@,
        decreases items.len() - i,
    {
        if items[i] == *wanted {
            return true;
        }
        i += 1;
    }
    false
}

/// A list of the strings of `items` other than `unwanted`.
pub(crate) fn without_text(items: &Vec<String>, unwanted: &String) -> (kept: Vec<String>)
    ensures
        text_set(kept@) == text_set(items@).remove(unwanted@),
{
    let mut kept: Vec<String> = Vec::new();
    let mut i: usize = 0;
    proof {
        lemma_text_set_empty();
        assert(items@.take(0) =~= Seq::<String>::empty());
        assert(text_set(kept@) =~= text_set(items@.take(0)).remove(unwanted@));
    }
    while i < items.len()
        invariant
            i <= items.len(),
            text_set(kept@) == text_set(items@.take(i as int)).remove(unwanted@),
        decreases items.len() - i,
    {
        let ghost before = kept@;
        proof {
            assert(items@.take(i + 1) =~= items@.take(i as int).push(items@[i as int]));
            lemma_text_set_push(items@.take(i as int), items@[i as int]);
        }
        if !(items[i] == *unwanted) {
            let copy = items[i].clone();
            kept.push(copy);
            proof {
                lemma_text_set_push(before, copy);
            }
        }
        proof {
            assert(text_set(kept@) =~= text_set(items@.take(i + 1)).remove(unwanted@));
        }
        i += 1;
    }
    proof {
        assert(items@.take(items@.len() as int) =~= items@);
    }
    kept
}

/// A list with the same strings as `items`, in the same order.
pub(crate) fn copy_texts(items: &Vec<String>) -> (copy: Vec<String>)
    ensures
        copy@.len() == items@.len(),
        forall|i: int| 0 <= i < items@.len() ==> (#[trigger] copy@[i])@ == items@[i]@,
        text_set(copy@) == text_set(items@),
{
    let mut copy: Vec<String> = Vec::new();
    let mut i: usize = 0;
    while i < items.len()
        invariant
            i <= items.len(),
            copy@.len() == i,
            forall|j: int| 0 <= j < i ==> (#[trigger] copy@[j])@ == items@[j]@,
        decreases items.len() - i,
    {
        copy.push(items[i].clone());
        i += 1;
    }
    proof {
        assert forall|text: Text| text_set(copy@).contains(text) <==> text_set(items@).contains(
            text,
        ) by {
            if text_set(copy@).contains(text) {
                let j = choose|j: int| 0 <= j < copy@.len() && (#[trigger] copy@[j])@ == text;
                assert(items@[j]@ == text);
            }
            if text_set(items@).contains(text) {
                let j = choose|j: int| 0 <= j < items@.len() && (#[trigger] items@[j])@ == text;
                assert(copy@[j]@ == text);
            }
        }
        assert(text_set(copy@) =~= text_set(items@));
    }
    copy
}

/// Appends to `items` a copy of each string of `more` whose text it does not
/// hold yet.
pub(crate) fn add_missing_texts(items: &mut Vec<String>, more: &Vec<String>)
    ensures
        text_set(final(items)@) == text_set(old(items)@).union(text_set(more@)),
        distinct_texts(old(items)@) ==> distinct_texts(final(items)@),
        old(items)@.is_prefix_of(final(items)@),
{
    let mut i: usize = 0;
    proof {
        lemma_text_set_empty();
        assert(more@.take(0) =~= Seq::<String>::empty());
        assert(text_set(items@).union(text_set(more@.take(0))) =~= text_set(items@));
    }
    while i < more.len()
        invariant
            i <= more.len(),
            text_set(items@) == text_set(old(items)@).union(text_set(more@.take(i as int))),
            distinct_texts(old(items)@) ==> distinct_texts(items@),
            old(items)@.is_prefix_of(items@),
        decreases more.len() - i,
    {
        let ghost before = items@;
        proof {
            assert(more@.take(i + 1) =~= more@.take(i as int).push(more@[i as int]));
            lemma_text_set_push(more@.take(i as int), more@[i as int]);
        }
        if !contains_text(items, &more[i]) {
            let copy = more[i].clone();
            items.push(copy);
            proof {
                lemma_text_set_push(before, copy);
                if distinct_texts(before) {
                    assert forall|k: int, l: int| 0 <= k < l < items@.len() implies (
                    #[trigger] items@[k])@ != (#[trigger] items@[l])@ by {
                        if l == before.len() {
                            assert(before[k]@ != copy@) by {
                                if before[k]@ == copy@ {
                                    assert(text_set(before).contains(copy@));
                                }
                            }
                        } else {
                            assert(before[k]@ != before[l]@);
                        }
                    }
                }
            }
        }
        proof {
            assert(text_set(items@) =~= text_set(old(items)@).union(
                text_set(more@.take(i + 1)),
            ));
        }
        i += 1;
    }
    proof {
        assert(more@.take(more@.len() as int) =~= more@);
    }
}

} // verus!
