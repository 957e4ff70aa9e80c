//! The ordered mapping from keys to values that a [`Value`] object and the
//! open part of the metadata hold.

use vstd::prelude::*;

use super::model::EntryModel;
use super::Value;

verus! {

/// An insertion-ordered map with unique string keys, kept in an
/// `indexmap::IndexMap`. Verus sees it only through [`entries`].
#[verifier::external_body]
#[derive(Debug)]
pub struct ValueMap {
    inner: indexmap::IndexMap<String, Value>,
}

/// The entries of a map, in order.
pub uninterp spec fn entries(m: ValueMap) -> Seq<EntryModel>;

/// The first position of `key` among `es`, if it occurs.
pub open spec fn position_of(es: Seq<EntryModel>, key: Seq<char>) -> Option<int> {
    if exists|i: int| 0 <= i < es.len() && es[i].key == key {
        Some(choose|i: int| 0 <= i < es.len() && es[i].key == key)
    } else {
        None
    }
}

/// No key occurs twice.
pub open spec fn distinct_keys(es: Seq<EntryModel>) -> bool {
    forall|i: int, j: int| 0 <= i < j < es.len() ==> es[i].key != es[j].key
}

/// What `es` becomes when `key` is set to `value`: a key already present
/// keeps its place and takes the new value, a new key goes last.
pub open spec fn with_entry(es: Seq<EntryModel>, entry: EntryModel) -> Seq<EntryModel> {
    match position_of(es, entry.key) {
        Some(i) => es.update(i, entry),
        None => es.push(entry),
    }
}

/// The value that `key` has in `es`, if it occurs.
pub open spec fn value_at(es: Seq<EntryModel>, key: Seq<char>) -> Option<super::model::ValueModel> {
    match position_of(es, key) {
        Some(i) => Some(es[i].value),
        None => None,
    }
}

/// `IndexMap::new` returns a map without entries.
#[verifier::external_body]
fn index_map_new() -> (m: ValueMap)
    ensures
        entries(m) == Seq::<EntryModel>::empty(),
{
    ValueMap { inner: indexmap::IndexMap::new() }
}

/// `IndexMap::len` returns the number of entries.
#[verifier::external_body]
fn index_map_len(m: &ValueMap) -> (n: usize)
    ensures
        n == entries(*m).len(),
{
    m.inner.len()
}

/// `IndexMap::is_empty` tells whether the map has no entry.
#[verifier::external_body]
fn index_map_is_empty(m: &ValueMap) -> (b: bool)
    ensures
        b == (entries(*m).len() == 0),
{
    m.inner.is_empty()
}

/// `IndexMap::get_index` returns the key and the value at a position, and
/// `None` from the length on.
#[verifier::external_body]
fn index_map_get_index(m: &ValueMap, index: usize) -> (r: Option<(&String, &Value)>)
    ensures
        match r {
            Some((key, value)) => index < entries(*m).len() && key@ == entries(
                *m,
            )[index as int].key && value@ == entries(*m)[index as int].value,
            None => index >= entries(*m).len(),
        },
{
    m.inner.get_index(index)
}

/// `IndexMap::insert` sets `key` to `value`. A key already present keeps its
/// place and takes the new value, and the value it had is returned; a new
/// key goes last, and `None` is returned. No key occurs twice afterwards.
#[verifier::external_body]
fn index_map_insert(m: &mut ValueMap, key: String, value: Value) -> (previous: Option<Value>)
    ensures
        entries(*final(m)) == with_entry(entries(*old(m)), EntryModel { key: key@, value: value@ }),
        distinct_keys(entries(*final(m))),
        match previous {
            Some(v) => value_at(entries(*old(m)), key@) == Some(v@),
            None => value_at(entries(*old(m)), key@) is None,
        },
{
    m.inner.insert(key, value)
}

impl ValueMap {
    /// A map without entries.
    pub fn new() -> (m: ValueMap)
        ensures
            m@ == Seq::<EntryModel>::empty(),
    {
        index_map_new()
    }

    /// The number of entries.
    pub fn len(&self) -> (n: usize)
        ensures
            n == self@.len(),
    {
        index_map_len(self)
    }

    /// Whether the map has no entry.
    pub fn is_empty(&self) -> (b: bool)
        ensures
            b == (self@.len() == 0),
    {
        index_map_is_empty(self)
    }

    /// The key and the value at position `index`; `None` from the length on.
    pub fn get_index(&self, index: usize) -> (r: Option<(&String, &Value)>)
        ensures
            match r {
                Some((key, value)) => index < self@.len() && key@ == self@[index as int].key
                    && value@ == self@[index as int].value,
                None => index >= self@.len(),
            },
    {
        index_map_get_index(self, index)
    }

    /// Sets `key` to `value` and returns the value that the key had. A key
    /// already present keeps its place; a new key goes last.
    pub fn insert(&mut self, key: String, value: Value) -> (previous: Option<Value>)
        ensures
            final(self)@ == with_entry(old(self)@, EntryModel { key: key@, value: value@ }),
            distinct_keys(final(self)@),
            match previous {
                Some(v) => value_at(old(self)@, key@) == Some(v@),
                None => value_at(old(self)@, key@) is None,
            },
    {
        index_map_insert(self, key, value)
    }
}

impl Clone for ValueMap {
    /// `IndexMap::clone`: a map with the same entries.
    #[verifier::external_body]
    fn clone(&self) -> (m: Self)
        ensures
            entries(m) == entries(*self),
    {
        ValueMap { inner: self.inner.clone() }
    }
}

impl PartialEq for ValueMap {
    /// `IndexMap`'s `==`. Nothing is stated of it.
    #[verifier::external_body]
    fn eq(&self, other: &Self) -> (r: bool) {
        self.inner == other.inner
    }
}

} // verus!
