//! Stored settings as they were read: text values by key.

use vstd::prelude::*;

use crate::text::same_text;

verus! {

/// What looking up one key gave.
#[derive(Debug)]
pub enum Stored {
    /// The store could not be read.
    Unreadable,
    /// The key has no value.
    Missing,
    /// The key's value.
    Value(String),
}

/// What looking up one key gave, by its characters.
pub enum StoredView {
    Unreadable,
    Missing,
    Value(Seq<char>),
}

impl View for Stored {
    type V = StoredView;

    open spec fn view(&self) -> StoredView {
        match *self {
            Stored::Unreadable => StoredView::Unreadable,
            Stored::Missing => StoredView::Missing,
            Stored::Value(text) => StoredView::Value(text@),
        }
    }
}

impl StoredView {
    /// The value, or `default` where there is none.
    pub open spec fn text_or(self, default: Seq<char>) -> Seq<char> {
        match self {
            StoredView::Value(text) => text,
            _ => default,
        }
    }

    /// Whether the value is `true`; `default` where there is none.
    pub open spec fn flag_or(self, default: bool) -> bool {
        match self {
            StoredView::Value(text) => text == "true"@,
            _ => default,
        }
    }
}

impl Stored {
    /// The same lookup result, with its own text.
    pub fn copy(&self) -> (res: Stored)
        ensures
            res@ == self@,
    {
        match self {
            Stored::Unreadable => Stored::Unreadable,
            Stored::Missing => Stored::Missing,
            Stored::Value(text) => Stored::Value(text.clone()),
        }
    }

    /// The value, or `default` where there is none.
    pub fn text_or(&self, default: &str) -> (res: String)
        ensures
            res@ == self@.text_or(default@),
    {
        match self {
            Stored::Value(text) => text.clone(),
            _ => default.to_string(),
        }
    }

    /// Whether the value is `true`; `default` where there is none.
    pub fn flag_or(&self, default: bool) -> (res: bool)
        ensures
            res == self@.flag_or(default),
    {
        match self {
            Stored::Value(text) => same_text(text.as_str(), "true"),
            _ => default,
        }
    }
}

/// One key with what looking it up gave.
#[derive(Debug)]
pub struct StoredEntry {
    pub key: String,
    pub value: Stored,
}

/// The settings that were read. A key that is not listed has no value; of a key
/// listed twice the first entry counts.
#[derive(Debug)]
pub struct StoredSettings {
    pub entries: Vec<StoredEntry>,
}

/// What the first entry for `key` holds.
pub open spec fn lookup(entries: Seq<StoredEntry>, key: Seq<char>) -> StoredView
    decreases entries.len(),
{
    if entries.len() == 0 {
        StoredView::Missing
    } else if entries[0].key@ == key {
        entries[0].value@
    } else {
        lookup(entries.drop_first(), key)
    }
}

impl StoredSettings {
    /// What looking up `key` gave.
    pub open spec fn at(self, key: Seq<char>) -> StoredView {
        lookup(self.entries@, key)
    }

    /// Settings in which no key has a value.
    pub fn new() -> (res: StoredSettings)
        ensures
            res.entries@.len() == 0,
            forall|key: Seq<char>| #[trigger] res.at(key) == StoredView::Missing,
    {
        StoredSettings { entries: Vec::new() }
    }

    /// Adds what looking up `key` gave. It counts if the key is not listed yet.
    pub fn add(&mut self, key: &str, value: Stored)
        ensures
            final(self).entries@.len() == old(self).entries@.len() + 1,
            final(self).entries@.drop_last() == old(self).entries@,
            final(self).entries@.last().key@ == key@,
            final(self).entries@.last().value == value,
            forall|other: Seq<char>| #[trigger]
                final(self).at(other) == if other == key@ && !is_listed(old(self).entries@, key@) {
                    value@
                } else {
                    old(self).at(other)
                },
    {
        let entry = StoredEntry { key: key.to_string(), value };
        proof {
            assert forall|other: Seq<char>| #[trigger]
                lookup(old(self).entries@.push(entry), other) == if other == key@ && !is_listed(
                    old(self).entries@,
                    key@,
                ) {
                    entry.value@
                } else {
                    lookup(old(self).entries@, other)
                } by {
                lemma_lookup_push(old(self).entries@, entry, other);
            }
        }
        self.entries.push(entry);
    }

    /// What looking up `key` gave.
    pub fn get(&self, key: &str) -> (res: Stored)
        ensures
            res@ == self.at(key@),
    {
        let mut i: usize = 0;
        assert(self.entries@.skip(0) == self.entries@);
        while i < self.entries.len()
            invariant
                i <= self.entries@.len(),
                lookup(self.entries@.skip(i as int), key@) == self.at(key@),
            decreases self.entries@.len() - i,
        {
            let ghost rest = self.entries@.skip(i as int);
            if same_text(self.entries[i].key.as_str(), key) {
                return self.entries[i].value.copy();
            }
            assert(rest.drop_first() == self.entries@.skip(i + 1));
            i += 1;
        }
        Stored::Missing
    }
}

/// Whether an entry has the key `key`.
pub open spec fn is_listed(entries: Seq<StoredEntry>, key: Seq<char>) -> bool {
    exists|i: int| 0 <= i < entries.len() && (#[trigger] entries[i]).key@ == key
}

proof fn lemma_lookup_push(entries: Seq<StoredEntry>, entry: StoredEntry, key: Seq<char>)
    ensures
        lookup(entries.push(entry), key) == if key == entry.key@ && !is_listed(entries, key) {
            entry.value@
        } else {
            lookup(entries, key)
        },
    decreases entries.len(),
{
    let pushed = entries.push(entry);
    if entries.len() == 0 {
        assert(pushed.drop_first() == Seq::<StoredEntry>::empty());
        assert(lookup(pushed.drop_first(), key) == StoredView::Missing);
    } else {
        assert(pushed.drop_first() == entries.drop_first().push(entry));
        lemma_lookup_push(entries.drop_first(), entry, key);
        if entries[0].key@ != key {
            if is_listed(entries, key) {
                let i = choose|i: int| 0 <= i < entries.len() && (#[trigger] entries[i]).key@ == key;
                assert(entries.drop_first()[i - 1] == entries[i]);
            }
            if is_listed(entries.drop_first(), key) {
                let rest = entries.drop_first();
                let i = choose|i: int| 0 <= i < rest.len() && (#[trigger] rest[i]).key@ == key;
                assert(entries[i + 1] == rest[i]);
            }
        }
    }
}

/// A value to store under a key.
#[derive(Debug)]
pub struct SettingWrite {
    pub key: String,
    pub value: String,
}

/// A value to store under a key, by its characters.
pub struct WriteView {
    pub key: Seq<char>,
    pub value: Seq<char>,
}

impl View for SettingWrite {
    type V = WriteView;

    open spec fn view(&self) -> WriteView {
        WriteView { key: self.key@, value: self.value@ }
    }
}

/// The write of `value` under `key`.
pub fn write_of(key: &str, value: &str) -> (res: SettingWrite)
    ensures
        res@ == (WriteView { key: key@, value: value@ }),
{
    SettingWrite { key: key.to_string(), value: value.to_string() }
}

/// The writes by their characters.
pub open spec fn write_views(writes: Seq<SettingWrite>) -> Seq<WriteView> {
    writes.map_values(|w: SettingWrite| w@)
}

/// What looking up `key` gives once `writes` are stored, in order, over settings
/// where it gave `before`.
pub open spec fn after_writes(
    before: StoredView,
    writes: Seq<WriteView>,
    key: Seq<char>,
) -> StoredView
    decreases writes.len(),
{
    if writes.len() == 0 {
        before
    } else if writes.last().key == key {
        StoredView::Value(writes.last().value)
    } else {
        after_writes(before, writes.drop_last(), key)
    }
}

/// Storing two lists of values, one after the other.
pub proof fn lemma_after_writes_concat(
    before: StoredView,
    first: Seq<WriteView>,
    second: Seq<WriteView>,
    key: Seq<char>,
)
    ensures
        after_writes(before, first + second, key) == after_writes(
            after_writes(before, first, key),
            second,
            key,
        ),
    decreases second.len(),
{
    if second.len() == 0 {
        assert(first + second == first);
    } else {
        assert((first + second).drop_last() == first + second.drop_last());
        lemma_after_writes_concat(before, first, second.drop_last(), key);
    }
}

} // verus!
