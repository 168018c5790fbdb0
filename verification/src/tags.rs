//! Tags: a mapping from unique keys to values, kept in the order of its keys.

use crate::text::{compare_keys, key_lt, lemma_key_order_total, lemma_lex_lt_transitive, KeyOrder};
use vstd::prelude::*;
use vstd::utf8::encode_utf8;

verus! {

/// The value of a tag. A double is held by its IEEE 754 bit pattern.
#[derive(Debug, PartialEq, Eq)]
pub enum TagValue {
    Bool(bool),
    I64(i64),
    F64(u64),
    String(String),
    Binary(Vec<u8>),
}

/// The value of a tag as a mathematical value.
pub enum TagValueView {
    Bool(bool),
    I64(i64),
    F64(u64),
    String(Seq<char>),
    Binary(Seq<u8>),
}

impl View for TagValue {
    type V = TagValueView;

    open spec fn view(&self) -> TagValueView {
        match self {
            TagValue::Bool(v) => TagValueView::Bool(*v),
            TagValue::I64(v) => TagValueView::I64(*v),
            TagValue::F64(v) => TagValueView::F64(*v),
            TagValue::String(v) => TagValueView::String(v@),
            TagValue::Binary(v) => TagValueView::Binary(v@),
        }
    }
}

/// One tag: a key and the value under it.
#[derive(Debug, PartialEq, Eq)]
pub struct Tag {
    pub key: String,
    pub value: TagValue,
}

/// One tag as a mathematical value.
pub struct TagView {
    pub key: Seq<char>,
    pub value: TagValueView,
}

impl View for Tag {
    type V = TagView;

    open spec fn view(&self) -> TagView {
        TagView { key: self.key@, value: self.value@ }
    }
}

/// The tag at `i` has the key `k`, and no tag after it has.
pub open spec fn is_last_with_key(tags: Seq<TagView>, k: Seq<char>, i: int) -> bool {
    &&& 0 <= i < tags.len()
    &&& tags[i].key == k
    &&& forall|j: int| i < j < tags.len() ==> tags[j].key != k
}

/// The mapping that a sequence of tags gives when they are put into it one after
/// the other: it has the keys of the tags, and under each key the value of the
/// last tag with that key.
pub open spec fn tags_map(tags: Seq<TagView>) -> Map<Seq<char>, TagValueView> {
    Map::new(
        |k: Seq<char>| exists|i: int| 0 <= i < tags.len() && #[trigger] tags[i].key == k,
        |k: Seq<char>| tags[choose|i: int| is_last_with_key(tags, k, i)].value,
    )
}

/// Of the tags with one key there is a last one.
pub proof fn lemma_last_exists(tags: Seq<TagView>, k: Seq<char>, i: int)
    requires
        0 <= i < tags.len(),
        tags[i].key == k,
    ensures
        exists|l: int| is_last_with_key(tags, k, l),
    decreases tags.len() - i,
{
    if forall|j: int| i < j < tags.len() ==> tags[j].key != k {
        assert(is_last_with_key(tags, k, i));
    } else {
        let j = choose|j: int| i < j < tags.len() && tags[j].key == k;
        lemma_last_exists(tags, k, j);
    }
}

/// Last write wins: where several tags have the same key, the mapping holds that
/// key once, with the value of the last of them.
pub proof fn lemma_last_write_wins(tags: Seq<TagView>, i: int)
    requires
        is_last_with_key(tags, tags[i].key, i),
    ensures
        tags_map(tags).contains_key(tags[i].key),
        tags_map(tags)[tags[i].key] == tags[i].value,
{
    let k = tags[i].key;
    let c = choose|c: int| is_last_with_key(tags, k, c);
    assert(c == i);
}

/// No tags give the empty mapping.
pub proof fn lemma_tags_map_empty()
    ensures
        tags_map(Seq::<TagView>::empty()) == Map::<Seq<char>, TagValueView>::empty(),
{
    assert(tags_map(Seq::<TagView>::empty()) =~= Map::<Seq<char>, TagValueView>::empty());
}

/// One more tag at the end is one more insertion into the mapping.
pub proof fn lemma_tags_map_push(tags: Seq<TagView>, t: TagView)
    ensures
        tags_map(tags.push(t)) == tags_map(tags).insert(t.key, t.value),
{
    let more = tags.push(t);
    let m1 = tags_map(more);
    let m2 = tags_map(tags).insert(t.key, t.value);
    assert(more[tags.len() as int] == t);
    assert forall|k: Seq<char>| m1.contains_key(k) <==> m2.contains_key(k) by {
        if m1.contains_key(k) {
            let i = choose|i: int| 0 <= i < more.len() && #[trigger] more[i].key == k;
            if i < tags.len() {
                assert(tags[i].key == k);
            }
        }
        if tags_map(tags).contains_key(k) {
            let i = choose|i: int| 0 <= i < tags.len() && #[trigger] tags[i].key == k;
            assert(more[i].key == k);
        }
    }
    assert forall|k: Seq<char>| m1.contains_key(k) implies m1[k] == m2[k] by {
        if k == t.key {
            assert(is_last_with_key(more, k, tags.len() as int));
            lemma_last_write_wins(more, tags.len() as int);
        } else {
            let i = choose|i: int| 0 <= i < more.len() && #[trigger] more[i].key == k;
            assert(i < tags.len());
            assert(tags[i].key == k);
            lemma_last_exists(tags, k, i);
            let l = choose|l: int| is_last_with_key(tags, k, l);
            assert(more[l] == tags[l]);
            assert forall|j: int| l < j < more.len() implies more[j].key != k by {
                if j < tags.len() {
                    assert(more[j] == tags[j]);
                }
            }
            assert(is_last_with_key(more, k, l));
            lemma_last_write_wins(more, l);
        }
    }
    assert(m1 =~= m2);
}

/// The keys rise strictly from one entry to the next.
pub open spec fn strictly_sorted(s: Seq<Tag>) -> bool {
    forall|i: int, j: int| 0 <= i < j < s.len() ==> key_lt(#[trigger] s[i].key@, #[trigger] s[j].key@)
}

/// Some entry has the key `k`.
pub open spec fn has_key(s: Seq<Tag>, k: Seq<char>) -> bool {
    exists|i: int| 0 <= i < s.len() && #[trigger] s[i].key@ == k
}

/// The position of an entry with the key `k`.
pub open spec fn position(s: Seq<Tag>, k: Seq<char>) -> int {
    choose|i: int| 0 <= i < s.len() && #[trigger] s[i].key@ == k
}

/// The mapping that a sequence of entries stands for.
pub open spec fn entries_map(s: Seq<Tag>) -> Map<Seq<char>, TagValueView> {
    Map::new(|k: Seq<char>| has_key(s, k), |k: Seq<char>| s[position(s, k)].value@)
}

/// In a sorted sequence an entry is found under its own key.
pub proof fn lemma_entry_lookup(s: Seq<Tag>, i: int)
    requires
        strictly_sorted(s),
        0 <= i < s.len(),
    ensures
        entries_map(s).contains_key(s[i].key@),
        entries_map(s)[s[i].key@] == s[i].value@,
        position(s, s[i].key@) == i,
{
    let k = s[i].key@;
    let c = position(s, k);
    assert(s[i].key@ == k);
    lemma_key_order_total(k, k);
    if c < i {
        assert(key_lt(s[c].key@, s[i].key@));
    } else if i < c {
        assert(key_lt(s[i].key@, s[c].key@));
    }
}

/// The order of keys is transitive.
pub proof fn lemma_key_lt_transitive(a: Seq<char>, b: Seq<char>, c: Seq<char>)
    requires
        key_lt(a, b),
        key_lt(b, c),
    ensures
        key_lt(a, c),
{
    lemma_lex_lt_transitive(encode_utf8(a), encode_utf8(b), encode_utf8(c));
}

/// Replacing the value under a key that is present keeps the order and
/// overwrites that key in the mapping.
pub proof fn lemma_replace(s: Seq<Tag>, i: int, e: Tag)
    requires
        strictly_sorted(s),
        0 <= i < s.len(),
        s[i].key@ == e.key@,
    ensures
        strictly_sorted(s.update(i, e)),
        entries_map(s.update(i, e)) == entries_map(s).insert(e.key@, e.value@),
{
    let t = s.update(i, e);
    assert forall|a: int, b: int| 0 <= a < b < t.len() implies key_lt(
        #[trigger] t[a].key@,
        #[trigger] t[b].key@,
    ) by {
        assert(t[a].key@ == s[a].key@);
        assert(t[b].key@ == s[b].key@);
    }
    let m1 = entries_map(t);
    let m2 = entries_map(s).insert(e.key@, e.value@);
    assert forall|k: Seq<char>| m1.contains_key(k) <==> m2.contains_key(k) by {
        if has_key(t, k) {
            let c = position(t, k);
            assert(s[c].key@ == k);
        }
        if has_key(s, k) {
            let c = position(s, k);
            assert(t[c].key@ == k);
        }
        if k == e.key@ {
            assert(t[i].key@ == k);
        }
    }
    assert forall|k: Seq<char>| m1.contains_key(k) implies m1[k] == m2[k] by {
        let c = position(t, k);
        lemma_entry_lookup(t, c);
        if c != i {
            assert(s[c].key@ == k);
            lemma_entry_lookup(s, c);
            lemma_entry_lookup(s, i);
        }
    }
    assert(m1 =~= m2);
}

/// Putting a new key at its place in the order keeps the order and adds the key
/// to the mapping.
pub proof fn lemma_insert(s: Seq<Tag>, i: int, e: Tag)
    requires
        strictly_sorted(s),
        0 <= i <= s.len(),
        forall|j: int| 0 <= j < i ==> key_lt(#[trigger] s[j].key@, e.key@),
        i < s.len() ==> key_lt(e.key@, s[i].key@),
    ensures
        strictly_sorted(s.insert(i, e)),
        entries_map(s.insert(i, e)) == entries_map(s).insert(e.key@, e.value@),
{
    let t = s.insert(i, e);
    assert forall|j: int| i <= j < s.len() implies key_lt(e.key@, #[trigger] s[j].key@) by {
        if i < j {
            assert(key_lt(s[i].key@, s[j].key@));
            lemma_key_lt_transitive(e.key@, s[i].key@, s[j].key@);
        }
    }
    assert forall|a: int, b: int| 0 <= a < b < t.len() implies key_lt(
        #[trigger] t[a].key@,
        #[trigger] t[b].key@,
    ) by {
        if b < i {
            assert(t[a] == s[a] && t[b] == s[b]);
        } else if b == i {
            assert(t[a] == s[a] && t[b] == e);
        } else if a < i {
            assert(t[a] == s[a] && t[b] == s[b - 1]);
            if b - 1 == a {
                assert(false);
            }
        } else if a == i {
            assert(t[a] == e && t[b] == s[b - 1]);
        } else {
            assert(t[a] == s[a - 1] && t[b] == s[b - 1]);
        }
    }
    let m1 = entries_map(t);
    let m2 = entries_map(s).insert(e.key@, e.value@);
    assert(t[i] == e);
    assert forall|k: Seq<char>| m1.contains_key(k) <==> m2.contains_key(k) by {
        if has_key(t, k) {
            let c = position(t, k);
            if c < i {
                assert(s[c].key@ == k);
            } else if c > i {
                assert(s[c - 1].key@ == k);
            }
        }
        if has_key(s, k) {
            let c = position(s, k);
            if c < i {
                assert(t[c].key@ == k);
            } else {
                assert(t[c + 1].key@ == k);
            }
        }
        if k == e.key@ {
            assert(t[i].key@ == k);
        }
    }
    assert forall|k: Seq<char>| m1.contains_key(k) implies m1[k] == m2[k] by {
        let c = position(t, k);
        lemma_entry_lookup(t, c);
        if c < i {
            assert(s[c].key@ == k);
            lemma_entry_lookup(s, c);
            lemma_key_order_total(k, k);
        } else if c > i {
            assert(s[c - 1].key@ == k);
            lemma_entry_lookup(s, c - 1);
            lemma_key_order_total(k, k);
        }
    }
    assert(m1 =~= m2);
}

/// A sorted sequence stands for a finite mapping with one key for each entry.
pub proof fn lemma_entries_count(s: Seq<Tag>)
    requires
        strictly_sorted(s),
    ensures
        entries_map(s).dom().finite(),
        entries_map(s).dom().len() == s.len(),
    decreases s.len(),
{
    if s.len() == 0 {
        assert(entries_map(s).dom() =~= Set::<Seq<char>>::empty());
    } else {
        let n = s.len() - 1;
        let init = s.take(n);
        let e = s[n];
        assert forall|i: int, j: int| 0 <= i < j < init.len() implies key_lt(
            #[trigger] init[i].key@,
            #[trigger] init[j].key@,
        ) by {
            assert(init[i] == s[i] && init[j] == s[j]);
        }
        lemma_entries_count(init);
        assert forall|j: int| 0 <= j < n implies key_lt(#[trigger] init[j].key@, e.key@) by {
            assert(init[j] == s[j]);
        }
        lemma_insert(init, n, e);
        assert(init.insert(n, e) =~= s);
        if has_key(init, e.key@) {
            let c = position(init, e.key@);
            assert(key_lt(init[c].key@, e.key@));
            lemma_key_order_total(e.key@, e.key@);
        }
        assert(entries_map(s).dom() =~= entries_map(init).dom().insert(e.key@));
    }
}

/// A mapping from tag keys to tag values. A key occurs once; inserting under a
/// key that is present overwrites its value. The entries are kept sorted by key.
#[derive(Debug, PartialEq, Eq)]
pub struct Tags {
    entries: Vec<Tag>,
}

impl View for Tags {
    type V = Map<Seq<char>, TagValueView>;

    closed spec fn view(&self) -> Map<Seq<char>, TagValueView> {
        entries_map(self.entries@)
    }
}

impl Tags {
    #[verifier::type_invariant]
    spec fn sorted(&self) -> bool {
        strictly_sorted(self.entries@)
    }

    /// The empty mapping.
    pub fn new() -> (r: Tags)
        ensures
            r@ == Map::<Seq<char>, TagValueView>::empty(),
    {
        let r = Tags { entries: Vec::new() };
        proof {
            assert(r@ =~= Map::<Seq<char>, TagValueView>::empty());
        }
        r
    }

    /// The number of keys.
    pub fn len(&self) -> (n: usize)
        ensures
            self@.dom().finite(),
            n == self@.len(),
    {
        proof {
            use_type_invariant(self);
            lemma_entries_count(self.entries@);
        }
        self.entries.len()
    }

    /// Whether the mapping has no key.
    pub fn is_empty(&self) -> (r: bool)
        ensures
            r <==> self@ == Map::<Seq<char>, TagValueView>::empty(),
    {
        proof {
            use_type_invariant(self);
            lemma_entries_count(self.entries@);
            if self.entries@.len() == 0 {
                assert(self@ =~= Map::<Seq<char>, TagValueView>::empty());
            }
        }
        self.entries.len() == 0
    }

    /// The entries in the order of their keys: each key of the mapping once, with
    /// its value.
    pub fn entries(&self) -> (r: &Vec<Tag>)
        ensures
            strictly_sorted(r@),
            entries_map(r@) == self@,
    {
        proof {
            use_type_invariant(self);
        }
        &self.entries
    }

    /// The entries by value, in the order of their keys.
    pub fn into_entries(self) -> (r: Vec<Tag>)
        ensures
            strictly_sorted(r@),
            entries_map(r@) == self@,
    {
        proof {
            use_type_invariant(&self);
        }
        self.entries
    }

    /// The value under `key`, if the key is present.
    pub fn get(&self, key: &str) -> (r: Option<&TagValue>)
        ensures
            match r {
                Some(v) => self@.contains_key(key@) && self@[key@] == v@,
                None => !self@.contains_key(key@),
            },
    {
        proof {
            use_type_invariant(self);
        }
        let mut i: usize = 0;
        while i < self.entries.len()
            invariant
                i <= self.entries.len(),
                strictly_sorted(self.entries@),
                forall|j: int| 0 <= j < i ==> self.entries@[j].key@ != key@,
            decreases self.entries.len() - i,
        {
            if compare_keys(self.entries[i].key.as_str(), key) == KeyOrder::Same {
                proof {
                    lemma_entry_lookup(self.entries@, i as int);
                }
                return Some(&self.entries[i].value);
            }
            i += 1;
        }
        None
    }

    /// Puts `value` under `key`, overwriting the value that the key had.
    pub fn insert(&mut self, key: String, value: TagValue)
        ensures
            final(self)@ == old(self)@.insert(key@, value@),
    {
        proof {
            use_type_invariant(&*self);
        }
        let mut entries: Vec<Tag> = Vec::new();
        core::mem::swap(&mut self.entries, &mut entries);
        let mut i: usize = 0;
        let mut present = false;
        while i < entries.len()
            invariant_except_break
                !present,
            invariant
                i <= entries.len(),
                entries == old(self).entries,
                strictly_sorted(entries@),
                forall|j: int| 0 <= j < i ==> key_lt(#[trigger] entries@[j].key@, key@),
            ensures
                i <= entries.len(),
                entries == old(self).entries,
                strictly_sorted(entries@),
                forall|j: int| 0 <= j < i ==> key_lt(#[trigger] entries@[j].key@, key@),
                present ==> i < entries.len() && entries@[i as int].key@ == key@,
                !present && i < entries.len() ==> key_lt(key@, entries@[i as int].key@),
            decreases entries.len() - i,
        {
            match compare_keys(entries[i].key.as_str(), key.as_str()) {
                KeyOrder::Before => {
                    i += 1;
                },
                KeyOrder::Same => {
                    present = true;
                    break ;
                },
                KeyOrder::After => {
                    break ;
                },
            }
        }
        let entry = Tag { key, value };
        if present {
            proof {
                lemma_replace(entries@, i as int, entry);
            }
            entries.set(i, entry);
        } else {
            proof {
                lemma_insert(entries@, i as int, entry);
            }
            entries.insert(i, entry);
        }
        self.entries = entries;
    }
}

} // verus!
