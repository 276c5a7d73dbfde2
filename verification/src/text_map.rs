//! Maps from texts to values, kept in the order of their keys.

use crate::text::{chars_of, same_text};
use vstd::prelude::*;

verus! {

/// The order of texts: character by character, a prefix before what extends it.
pub open spec fn text_less(left: Seq<char>, right: Seq<char>) -> bool
    decreases left.len(),
{
    if right.len() == 0 {
        false
    } else if left.len() == 0 {
        true
    } else if left[0] != right[0] {
        left[0] < right[0]
    } else {
        text_less(left.skip(1), right.skip(1))
    }
}

/// Of two different texts exactly one is less than the other, and no text is less
/// than itself.
pub proof fn lemma_text_less_total(left: Seq<char>, right: Seq<char>)
    ensures
        left == right ==> !text_less(left, right) && !text_less(right, left),
        left != right ==> text_less(left, right) != text_less(right, left),
    decreases left.len(),
{
    if left.len() > 0 && right.len() > 0 && left[0] == right[0] {
        lemma_text_less_total(left.skip(1), right.skip(1));
        if left.skip(1) == right.skip(1) {
            assert(left =~= seq![left[0]] + left.skip(1));
            assert(right =~= seq![right[0]] + right.skip(1));
        }
    } else if left.len() == 0 && right.len() == 0 {
        assert(left =~= right);
    }
}

/// What is less than a lesser text is less.
pub proof fn lemma_text_less_transitive(left: Seq<char>, middle: Seq<char>, right: Seq<char>)
    requires
        text_less(left, middle),
        text_less(middle, right),
    ensures
        text_less(left, right),
    decreases left.len(),
{
    if left.len() > 0 && left[0] == middle[0] && middle[0] == right[0] {
        lemma_text_less_transitive(left.skip(1), middle.skip(1), right.skip(1));
    }
}

/// Whether one text is less than another.
pub fn is_less(left: &str, right: &str) -> (less: bool)
    ensures
        less == text_less(left@, right@),
{
    let first = chars_of(left);
    let second = chars_of(right);
    let mut at: usize = 0;
    assert(left@.skip(0) =~= left@);
    assert(right@.skip(0) =~= right@);
    while at < first.len() && at < second.len()
        invariant
            first@ == left@,
            second@ == right@,
            at <= first@.len(),
            at <= second@.len(),
            text_less(left@, right@) == text_less(left@.skip(at as int), right@.skip(at as int)),
        decreases first@.len() - at,
    {
        if first[at] != second[at] {
            return first[at] < second[at];
        }
        assert(left@.skip(at as int).skip(1) =~= left@.skip(at + 1));
        assert(right@.skip(at as int).skip(1) =~= right@.skip(at + 1));
        at = at + 1;
    }
    at < second.len()
}

/// One key with its value.
pub struct TextEntry<V> {
    pub key: String,
    pub value: V,
}

/// Entries whose keys ascend.
pub open spec fn ascending<V>(entries: Seq<TextEntry<V>>) -> bool {
    forall|i: int, j: int|
        0 <= i < j < entries.len() ==> text_less(
            (#[trigger] entries[i]).key@,
            (#[trigger] entries[j]).key@,
        )
}

/// Some entry has this key.
pub open spec fn has_key<V>(entries: Seq<TextEntry<V>>, key: Seq<char>) -> bool {
    exists|i: int| 0 <= i < entries.len() && (#[trigger] entries[i]).key@ == key
}

/// The map that entries hold.
pub open spec fn entry_map<V>(entries: Seq<TextEntry<V>>) -> Map<Seq<char>, V> {
    Map::new(
        |key: Seq<char>| has_key(entries, key),
        |key: Seq<char>|
            entries[choose|i: int| 0 <= i < entries.len() && (#[trigger] entries[i]).key@
                == key].value,
    )
}

/// An entry of ascending entries is the one that the map holds for its key.
pub proof fn lemma_entry_in_map<V>(entries: Seq<TextEntry<V>>, at: int)
    requires
        ascending(entries),
        0 <= at < entries.len(),
    ensures
        entry_map(entries).dom().contains(entries[at].key@),
        entry_map(entries)[entries[at].key@] == entries[at].value,
{
    let key = entries[at].key@;
    let found = choose|i: int| 0 <= i < entries.len() && (#[trigger] entries[i]).key@ == key;
    lemma_text_less_total(key, key);
    assert(found == at);
}

/// Keys that ascend.
pub open spec fn ascending_keys(keys: Seq<Seq<char>>) -> bool {
    forall|i: int, j: int|
        0 <= i < j < keys.len() ==> text_less(#[trigger] keys[i], #[trigger] keys[j])
}

/// The keys are those of the map, in ascending order.
pub open spec fn lists_keys<V>(keys: Seq<Seq<char>>, map: Map<Seq<char>, V>) -> bool {
    &&& ascending_keys(keys)
    &&& forall|i: int| 0 <= i < keys.len() ==> map.dom().contains(#[trigger] keys[i])
    &&& forall|key: Seq<char>| #[trigger] map.dom().contains(key) ==> keys.contains(key)
}

/// The keys of a map in ascending order.
pub open spec fn sorted_keys<V>(map: Map<Seq<char>, V>) -> Seq<Seq<char>> {
    choose|keys: Seq<Seq<char>>| lists_keys(keys, map)
}

/// The last of several ascending keys is the greatest.
proof fn lemma_last_is_greatest<V>(keys: Seq<Seq<char>>, map: Map<Seq<char>, V>, key: Seq<char>)
    requires
        lists_keys(keys, map),
        map.dom().contains(key),
    ensures
        keys.len() > 0,
        key == keys.last() || text_less(key, keys.last()),
{
    let at = choose|i: int| 0 <= i < keys.len() && keys[i] == key;
    assert(keys.contains(key));
    if at < keys.len() - 1 {
        assert(text_less(keys[at], keys[keys.len() - 1]));
    }
}

/// There is only one way to list the keys of a map in ascending order.
pub proof fn lemma_one_order<V>(
    keys: Seq<Seq<char>>,
    others: Seq<Seq<char>>,
    map: Map<Seq<char>, V>,
)
    requires
        lists_keys(keys, map),
        lists_keys(others, map),
    ensures
        keys == others,
    decreases keys.len(),
{
    if keys.len() == 0 {
        if others.len() > 0 {
            assert(map.dom().contains(others[0]));
            assert(keys.contains(others[0]));
        }
        assert(keys =~= others);
    } else {
        let last = keys.last();
        assert(keys[keys.len() - 1] == last);
        assert(map.dom().contains(last));
        lemma_last_is_greatest(others, map, last);
        let other_last = others.last();
        assert(others[others.len() - 1] == other_last);
        assert(map.dom().contains(other_last));
        lemma_last_is_greatest(keys, map, other_last);
        lemma_text_less_total(last, other_last);
        assert(last == other_last);
        let rest = map.remove(last);
        lemma_without_last(keys, map);
        lemma_without_last(others, map);
        lemma_one_order(keys.drop_last(), others.drop_last(), rest);
        assert(keys =~= keys.drop_last().push(last));
        assert(others =~= others.drop_last().push(last));
    }
}

/// Keys that ascend and are those of a map are its keys in ascending order.
pub proof fn lemma_sorted_keys<V>(keys: Seq<Seq<char>>, map: Map<Seq<char>, V>)
    requires
        lists_keys(keys, map),
    ensures
        sorted_keys(map) == keys,
{
    lemma_one_order(sorted_keys(map), keys, map);
}

/// Without the last key the others are listed.
proof fn lemma_without_last<V>(keys: Seq<Seq<char>>, map: Map<Seq<char>, V>)
    requires
        lists_keys(keys, map),
        keys.len() > 0,
    ensures
        lists_keys(keys.drop_last(), map.remove(keys.last())),
{
    let last = keys.last();
    let shorter = keys.drop_last();
    let rest = map.remove(last);
    assert forall|i: int| 0 <= i < shorter.len() implies rest.dom().contains(
        #[trigger] shorter[i],
    ) by {
        assert(shorter[i] == keys[i]);
        assert(text_less(keys[i], keys[keys.len() - 1]));
        lemma_text_less_total(last, last);
    }
    assert forall|key: Seq<char>| #[trigger] rest.dom().contains(key) implies shorter.contains(
        key,
    ) by {
        assert(keys.contains(key));
        let at = choose|i: int| 0 <= i < keys.len() && keys[i] == key;
        assert(shorter[at] == key);
    }
}

/// A map from texts to values that can be walked in the order of its keys.
pub struct TextMap<V> {
    entries: Vec<TextEntry<V>>,
}

impl<V> View for TextMap<V> {
    type V = Map<Seq<char>, V>;

    closed spec fn view(&self) -> Map<Seq<char>, V> {
        entry_map(self.entries@)
    }
}

impl<V> TextMap<V> {
    #[verifier::type_invariant]
    spec fn in_order(self) -> bool {
        ascending(self.entries@)
    }

    /// A map without entries.
    pub fn new() -> (map: Self)
        ensures
            map@ == Map::<Seq<char>, V>::empty(),
    {
        let map = TextMap { entries: Vec::new() };
        assert(map@ =~= Map::<Seq<char>, V>::empty());
        map
    }

    /// Where a key stands, or where it would have to be put.
    fn position(&self, key: &str) -> (at: usize)
        ensures
            at <= self.entries@.len(),
            forall|i: int| 0 <= i < at ==> text_less((#[trigger] self.entries@[i]).key@, key@),
            forall|i: int|
                at <= i < self.entries@.len() ==> !text_less(
                    (#[trigger] self.entries@[i]).key@,
                    key@,
                ),
            self@.dom().contains(key@) <==> at < self.entries@.len() && self.entries@[at as int].key@
                == key@,
    {
        proof {
            use_type_invariant(self);
        }
        let mut at: usize = 0;
        while at < self.entries.len() && is_less(self.entries[at].key.as_str(), key)
            invariant
                at <= self.entries@.len(),
                forall|i: int| 0 <= i < at ==> text_less((#[trigger] self.entries@[i]).key@, key@),
            decreases self.entries@.len() - at,
        {
            at = at + 1;
        }
        proof {
            lemma_text_less_total(key@, key@);
            assert forall|i: int| at <= i < self.entries@.len() implies !text_less(
                (#[trigger] self.entries@[i]).key@,
                key@,
            ) by {
                if i > at && text_less(self.entries@[i].key@, key@) {
                    lemma_text_less_transitive(
                        self.entries@[at as int].key@,
                        self.entries@[i].key@,
                        key@,
                    );
                }
            }
            assert forall|i: int|
                0 <= i < self.entries@.len() && (#[trigger] self.entries@[i]).key@ == key@ implies i
                == at by {
                if i > at {
                    assert(text_less(self.entries@[at as int].key@, self.entries@[i].key@));
                }
            }
        }
        at
    }

    /// The value of a key.
    pub fn get(&self, key: &str) -> (found: Option<&V>)
        ensures
            found is Some <==> self@.dom().contains(key@),
            found matches Some(value) ==> *value == self@[key@],
    {
        let at = self.position(key);
        proof {
            use_type_invariant(self);
        }
        if at < self.entries.len() && same_text(self.entries[at].key.as_str(), key) {
            proof {
                lemma_entry_in_map(self.entries@, at as int);
            }
            Some(&self.entries[at].value)
        } else {
            None
        }
    }

    /// Takes a key out of the map, with its value.
    pub fn remove(&mut self, key: &str) -> (taken: Option<V>)
        ensures
            taken is Some <==> old(self)@.dom().contains(key@),
            taken matches Some(value) ==> value == old(self)@[key@],
            final(self)@ == old(self)@.remove(key@),
    {
        proof {
            use_type_invariant(&*self);
        }
        let at = self.position(key);
        if at < self.entries.len() && same_text(self.entries[at].key.as_str(), key) {
            let ghost before = self.entries@;
            let mut entries: Vec<TextEntry<V>> = Vec::new();
            std::mem::swap(&mut entries, &mut self.entries);
            let entry = entries.remove(at);
            self.entries = entries;
            proof {
                lemma_entry_in_map(before, at as int);
                let after = self.entries@;
                assert forall|k: Seq<char>| has_key(after, k) <==> has_key(before, k) && k != key@ by {
                    if has_key(after, k) {
                        let i = choose|i: int| 0 <= i < after.len() && (#[trigger] after[i]).key@ == k;
                        let j = if i < at { i } else { i + 1 };
                        assert(before[j] == after[i]);
                        lemma_text_less_total(k, k);
                    }
                    if has_key(before, k) && k != key@ {
                        let j = choose|i: int| 0 <= i < before.len() && (#[trigger] before[i]).key@ == k;
                        let i = if j < at { j } else { j - 1 };
                        assert(after[i] == before[j]);
                    }
                }
                assert forall|k: Seq<char>| has_key(after, k) implies entry_map(after)[k]
                    == entry_map(before)[k] by {
                    let i = choose|i: int| 0 <= i < after.len() && (#[trigger] after[i]).key@ == k;
                    let j = if i < at { i } else { i + 1 };
                    lemma_entry_in_map(after, i);
                    lemma_entry_in_map(before, j);
                }
                assert(entry_map(after) =~= entry_map(before).remove(key@));
            }
            Some(entry.value)
        } else {
            assert(self@.remove(key@) =~= self@);
            None
        }
    }

    /// Sets the value of a key.
    pub fn insert(&mut self, key: String, value: V)
        ensures
            final(self)@ == old(self)@.insert(key@, value),
    {
        let _ = self.remove(key.as_str());
        proof {
            use_type_invariant(&*self);
        }
        let ghost emptied = self@;
        let at = self.position(key.as_str());
        let ghost before = self.entries@;
        let ghost entry = TextEntry { key, value };
        let mut entries: Vec<TextEntry<V>> = Vec::new();
        std::mem::swap(&mut entries, &mut self.entries);
        proof {
            let after = before.insert(at as int, entry);
            assert forall|i: int, j: int| 0 <= i < j < after.len() implies text_less(
                (#[trigger] after[i]).key@,
                (#[trigger] after[j]).key@,
            ) by {
                if i == at {
                    assert(after[j] == before[j - 1]);
                    lemma_text_less_total(before[j - 1].key@, key@);
                }
            }
        }
        entries.insert(at, TextEntry { key, value });
        self.entries = entries;
        proof {
            let after = self.entries@;
            lemma_entry_in_map(after, at as int);
            assert forall|k: Seq<char>| has_key(after, k) <==> has_key(before, k) || k == key@ by {
                if has_key(after, k) && k != key@ {
                    let i = choose|i: int| 0 <= i < after.len() && (#[trigger] after[i]).key@ == k;
                    let j = if i < at { i } else { i - 1 };
                    assert(before[j] == after[i]);
                }
                if has_key(before, k) {
                    let j = choose|i: int| 0 <= i < before.len() && (#[trigger] before[i]).key@ == k;
                    let i = if j < at { j } else { j + 1 };
                    assert(after[i] == before[j]);
                }
            }
            assert forall|k: Seq<char>| has_key(before, k) implies entry_map(after)[k]
                == entry_map(before)[k] by {
                let j = choose|i: int| 0 <= i < before.len() && (#[trigger] before[i]).key@ == k;
                let i = if j < at { j } else { j + 1 };
                lemma_entry_in_map(after, i);
                lemma_entry_in_map(before, j);
            }
            assert(entry_map(after) =~= entry_map(before).insert(key@, value));
            assert(emptied.insert(key@, value) =~= old(self)@.insert(key@, value));
        }
    }

    /// The entries in the order of their keys.
    pub fn into_entries(self) -> (entries: Vec<TextEntry<V>>)
        ensures
            entries@.len() == sorted_keys(self@).len(),
            forall|i: int|
                0 <= i < entries@.len() ==> (#[trigger] entries@[i]).key@ == sorted_keys(self@)[i],
            forall|i: int|
                0 <= i < entries@.len() ==> (#[trigger] entries@[i]).value == self@[sorted_keys(
                    self@,
                )[i]],
    {
        proof {
            use_type_invariant(&self);
            let entries = self.entries@;
            let keys = Seq::new(entries.len(), |i: int| entries[i].key@);
            assert forall|key: Seq<char>| #[trigger] self@.dom().contains(key) implies keys.contains(
                key,
            ) by {
                let at = choose|i: int| 0 <= i < entries.len() && (#[trigger] entries[i]).key@ == key;
                assert(keys[at] == key);
            }
            assert forall|i: int| 0 <= i < keys.len() implies self@.dom().contains(
                #[trigger] keys[i],
            ) && entries[i].value == self@[keys[i]] by {
                lemma_entry_in_map(entries, i);
            }
            lemma_sorted_keys(keys, self@);
        }
        self.entries
    }
}

/// The first character that differs decides the order of two texts, and a text comes after
/// each text that it starts with.
pub proof fn lemma_first_difference_decides(
    prefix: Seq<char>,
    left: Seq<char>,
    right: Seq<char>,
)
    ensures
        text_less(prefix + left, prefix + right) == text_less(left, right),
        left.len() > 0 && right.len() > 0 && left[0] != right[0] ==> (text_less(left, right)
            <==> left[0] < right[0]),
        text_less(prefix, prefix + right) <==> right.len() > 0,
        !text_less(prefix + right, prefix),
    decreases prefix.len(),
{
    if prefix.len() == 0 {
        assert(prefix + left =~= left);
        assert(prefix + right =~= right);
    } else {
        lemma_first_difference_decides(prefix.skip(1), left, right);
        assert((prefix + left).skip(1) =~= prefix.skip(1) + left);
        assert((prefix + right).skip(1) =~= prefix.skip(1) + right);
    }
}

/// Listed keys are all keys of the map and no others, each of them once and less than all
/// that follow.
pub proof fn lemma_listed_keys<V>(keys: Seq<Seq<char>>, map: Map<Seq<char>, V>)
    requires
        lists_keys(keys, map),
    ensures
        forall|key: Seq<char>| keys.contains(key) <==> #[trigger] map.dom().contains(key),
        forall|i: int, j: int|
            0 <= i < j < keys.len() ==> text_less(#[trigger] keys[i], #[trigger] keys[j]),
        keys.no_duplicates(),
{
    assert forall|i: int, j: int|
        0 <= i < keys.len() && 0 <= j < keys.len() && i != j implies keys[i] != keys[j] by {
        lemma_text_less_total(keys[i], keys[j]);
    }
}

} // verus!
