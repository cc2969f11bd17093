//! The value source: a key to string lookup that a bind call reads from.

use vstd::prelude::*;
use vstd::hash_map::StringHashMap;

verus! {

/// A caller-owned table of string keys and string values. A bind call only
/// reads it. The process environment is handed to the binder as a `Source`
/// that holds a copy of its variables.
pub struct Source {
    entries: StringHashMap<String>,
}

impl View for Source {
    type V = Map<Seq<char>, Seq<char>>;

    closed spec fn view(&self) -> Map<Seq<char>, Seq<char>> {
        self.entries@.map_values(|v: String| v@)
    }
}

impl Source {
    /// A source without any key.
    pub fn new() -> (r: Source)
        ensures
            r@ == Map::<Seq<char>, Seq<char>>::empty(),
    {
        let r = Source { entries: StringHashMap::new() };
        assert(r@ =~= Map::<Seq<char>, Seq<char>>::empty());
        r
    }

    /// Sets `key` to `value`, replacing what the key held before.
    pub fn insert(&mut self, key: &str, value: &str)
        ensures
            final(self)@ == old(self)@.insert(key@, value@),
    {
        self.entries.insert(key.to_owned(), value.to_owned());
        assert(self@ =~= old(self)@.insert(key@, value@));
    }

    /// Takes `key` out of the source, if it is there.
    pub fn remove(&mut self, key: &str)
        ensures
            final(self)@ == old(self)@.remove(key@),
    {
        self.entries.remove(key);
        assert(self@ =~= old(self)@.remove(key@));
    }

    /// Whether the source holds `key`.
    pub fn contains_key(&self, key: &str) -> (r: bool)
        ensures
            r == self@.contains_key(key@),
    {
        self.entries.contains_key(key)
    }

    /// The value stored under `key`, or `None` where the key is absent.
    pub fn lookup(&self, key: &str) -> (r: Option<&str>)
        ensures
            match r {
                Some(v) => self@.contains_key(key@) && self@[key@] == v@,
                None => !self@.contains_key(key@),
            },
    {
        match self.entries.get(key) {
            Some(v) => Some(v.as_str()),
            None => None,
        }
    }
}

} // verus!
