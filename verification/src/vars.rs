//! The table of `@set` variables: a map from names to values.

use vstd::prelude::*;

use crate::text::{copy_range, eq_chars};

verus! {

/// Variables set with `@set`, held as (name, value) pairs in the order they
/// were set; a later pair for a name hides an earlier one.
pub struct Variables {
    entries: Vec<(Vec<char>, Vec<char>)>,
}

/// The map that a list of (name, value) pairs stands for.
pub open spec fn entries_map(s: Seq<(Vec<char>, Vec<char>)>) -> Map<Seq<char>, Seq<char>>
    decreases s.len(),
{
    if s.len() == 0 {
        Map::empty()
    } else {
        entries_map(s.drop_last()).insert(s.last().0@, s.last().1@)
    }
}

impl View for Variables {
    type V = Map<Seq<char>, Seq<char>>;

    closed spec fn view(&self) -> Map<Seq<char>, Seq<char>> {
        entries_map(self.entries@)
    }
}

impl Variables {
    /// An empty table.
    pub fn new() -> (r: Variables)
        ensures
            r@ == Map::<Seq<char>, Seq<char>>::empty(),
    {
        Variables { entries: Vec::new() }
    }

    /// Removes `key`, if it is set (`HashMap::remove`).
    pub fn remove(&mut self, key: &[char])
        ensures
            final(self)@ == old(self)@.remove(key@),
    {
        let ghost s = self.entries@;
        let mut out: Vec<(Vec<char>, Vec<char>)> = Vec::new();
        let mut i: usize = 0;
        assert(entries_map(s.take(0)) =~= Map::<Seq<char>, Seq<char>>::empty());
        while i < self.entries.len()
            invariant
                s == self.entries@,
                i <= s.len(),
                entries_map(out@) == entries_map(s.take(i as int)).remove(key@),
            decreases s.len() - i,
        {
            assert(s.take(i + 1int).drop_last() =~= s.take(i as int));
            if !eq_chars(self.entries[i].0.as_slice(), key) {
                let k = copy_range(self.entries[i].0.as_slice(), 0, self.entries[i].0.len());
                let v = copy_range(self.entries[i].1.as_slice(), 0, self.entries[i].1.len());
                let ghost before = out@;
                out.push((k, v));
                assert(out@.drop_last() =~= before);
                assert(out@.last().0@ == s[i as int].0@);
                assert(out@.last().1@ == s[i as int].1@);
                assert(s.take(i + 1int).last() == s[i as int]);
                assert(entries_map(out@) == entries_map(before).insert(
                    s[i as int].0@,
                    s[i as int].1@,
                ));
                assert(entries_map(out@) =~= entries_map(s.take(i + 1int)).remove(key@));
            } else {
                assert(s.take(i + 1int).last() == s[i as int]);
                assert(entries_map(out@) =~= entries_map(s.take(i + 1int)).remove(key@));
            }
            i = i + 1;
        }
        assert(s.take(s.len() as int) =~= s);
        self.entries = out;
    }

    /// Sets `key` to `value`, replacing an earlier value (`HashMap::insert`).
    pub fn insert(&mut self, key: Vec<char>, value: Vec<char>)
        ensures
            final(self)@ == old(self)@.insert(key@, value@),
    {
        self.remove(key.as_slice());
        let ghost before = self.entries@;
        let ghost k = key@;
        let ghost v = value@;
        self.entries.push((key, value));
        assert(self.entries@.drop_last() =~= before);
        assert(self@ =~= old(self)@.remove(k).insert(k, v));
        assert(old(self)@.remove(k).insert(k, v) =~= old(self)@.insert(k, v));
    }

    /// The value of `key`, if it is set (`HashMap::get`).
    pub fn get(&self, key: &[char]) -> (r: Option<Vec<char>>)
        ensures
            r matches Some(v) ==> self@.contains_key(key@) && self@[key@] == v@,
            r is None ==> !self@.contains_key(key@),
    {
        let ghost s = self.entries@;
        let mut i: usize = self.entries.len();
        assert(s.take(s.len() as int) =~= s);
        while i > 0
            invariant
                s == self.entries@,
                i <= s.len(),
                entries_map(s).contains_key(key@) == entries_map(s.take(i as int)).contains_key(
                    key@,
                ),
                entries_map(s).contains_key(key@) ==> entries_map(s)[key@] == entries_map(
                    s.take(i as int),
                )[key@],
            decreases i,
        {
            assert(s.take(i as int).drop_last() =~= s.take(i - 1int));
            assert(s.take(i as int).last() == s[i - 1]);
            if eq_chars(self.entries[i - 1].0.as_slice(), key) {
                let v = copy_range(self.entries[i - 1].1.as_slice(), 0, self.entries[i - 1].1.len());
                return Some(v);
            }
            i = i - 1;
        }
        None
    }

    /// Whether `key` is set (`HashMap::contains_key`).
    pub fn contains_key(&self, key: &[char]) -> (r: bool)
        ensures
            r == self@.contains_key(key@),
    {
        self.get(key).is_some()
    }
}

} // verus!
