//! Items of the key-value store: attribute names mapped to typed values.
use vstd::prelude::*;
use crate::text::same_text;

verus! {

/// One attribute value of a stored item.
#[derive(Debug, Clone)]
pub enum AttrValue {
    /// A string.
    S(String),
    /// A number, as its decimal text.
    N(String),
    Bool(bool),
    /// A list of values.
    L(Vec<ListElem>),
}

/// An element of a stored list: a number, or a value of another kind,
/// which nothing here reads.
#[derive(Debug, Clone)]
pub enum ListElem {
    N(String),
    Other,
}

/// A stored item: attribute names with their values. A later entry for a
/// name replaces an earlier one.
#[derive(Debug, Clone)]
pub struct Item {
    pub entries: Vec<(String, AttrValue)>,
}

/// The value stored under `key`: that of the last entry with that name.
pub open spec fn lookup(entries: Seq<(String, AttrValue)>, key: Seq<char>) -> Option<AttrValue>
    decreases entries.len(),
{
    if entries.len() == 0 {
        None
    } else if entries.last().0@ == key {
        Some(entries.last().1)
    } else {
        lookup(entries.drop_last(), key)
    }
}

/// The string stored under `key`, where a string is stored there.
pub open spec fn lookup_s(entries: Seq<(String, AttrValue)>, key: Seq<char>) -> Option<Seq<char>> {
    match lookup(entries, key) {
        Some(AttrValue::S(s)) => Some(s@),
        _ => None,
    }
}

/// The numeral stored under `key`, where a number is stored there.
pub open spec fn lookup_n(entries: Seq<(String, AttrValue)>, key: Seq<char>) -> Option<Seq<char>> {
    match lookup(entries, key) {
        Some(AttrValue::N(s)) => Some(s@),
        _ => None,
    }
}

/// The flag stored under `key`, where a flag is stored there.
pub open spec fn lookup_bool(entries: Seq<(String, AttrValue)>, key: Seq<char>) -> Option<bool> {
    match lookup(entries, key) {
        Some(AttrValue::Bool(b)) => Some(b),
        _ => None,
    }
}

/// The list stored under `key`, where a list is stored there.
pub open spec fn lookup_l(entries: Seq<(String, AttrValue)>, key: Seq<char>) -> Option<Seq<ListElem>> {
    match lookup(entries, key) {
        Some(AttrValue::L(l)) => Some(l@),
        _ => None,
    }
}

impl Item {
    /// An item without attributes.
    pub fn new() -> (r: Item)
        ensures
            r.entries@.len() == 0,
    {
        Item { entries: Vec::new() }
    }

    /// Stores `value` under `key`.
    pub fn insert(&mut self, key: &str, value: AttrValue)
        ensures
            final(self).entries@ == old(self).entries@.push((final(self).entries@.last().0, value)),
            final(self).entries@.last().0@ == key@,
            forall|k: Seq<char>| #[trigger] lookup(final(self).entries@, k)
                == if k == key@ { Some(value) } else { lookup(old(self).entries@, k) },
    {
        self.entries.push((String::from_str(key), value));
        assert(final(self).entries@.drop_last() =~= old(self).entries@);
    }

    /// The value stored under `key`.
    pub fn get(&self, key: &str) -> (r: Option<&AttrValue>)
        ensures
            match r {
                Some(v) => lookup(self.entries@, key@) == Some(*v),
                None => lookup(self.entries@, key@) is None,
            },
    {
        let mut i: usize = self.entries.len();
        assert(self.entries@.subrange(0, i as int) =~= self.entries@);
        while i > 0
            invariant
                i <= self.entries@.len(),
                lookup(self.entries@, key@) == lookup(self.entries@.subrange(0, i as int), key@),
            decreases i,
        {
            let ghost prefix = self.entries@.subrange(0, i as int);
            assert(prefix.drop_last() =~= self.entries@.subrange(0, i - 1));
            if same_text(self.entries[i - 1].0.as_str(), key) {
                return Some(&self.entries[i - 1].1);
            }
            i = i - 1;
        }
        None
    }
}

} // verus!
