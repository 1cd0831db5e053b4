//! A small finite map that keeps its rows in a vector.

use vstd::prelude::*;

verus! {

/// Values that can be compared for equality.
pub trait Key: Copy {
    /// Whether the two keys are equal.
    fn same(&self, other: &Self) -> (b: bool)
        ensures
            b == (*self == *other),
    ;
}

/// The map that a list of rows stands for: of two rows with one key, the later
/// one counts.
pub open spec fn rows_map<K, V>(rows: Seq<(K, V)>) -> Map<K, V>
    decreases rows.len(),
{
    if rows.len() == 0 {
        Map::empty()
    } else {
        rows_map(rows.drop_last()).insert(rows.last().0, rows.last().1)
    }
}

/// A finite map from keys to values.
pub struct Table<K, V> {
    rows: Vec<(K, V)>,
}

impl<K, V> View for Table<K, V> {
    type V = Map<K, V>;

    closed spec fn view(&self) -> Map<K, V> {
        rows_map(self.rows@)
    }
}

impl<K: Key, V: Copy> Table<K, V> {
    /// The empty table.
    pub fn new() -> (table: Self)
        ensures
            table@ == Map::<K, V>::empty(),
    {
        Table { rows: Vec::new() }
    }

    /// The value under `key`, if there is one.
    pub fn get(&self, key: K) -> (value: Option<V>)
        ensures
            value == self@.get(key),
    {
        let mut found: Option<V> = None;
        let mut i: usize = 0;
        while i < self.rows.len()
            invariant
                i <= self.rows.len(),
                found == rows_map(self.rows@.take(i as int)).get(key),
            decreases self.rows.len() - i,
        {
            assert(self.rows@.take(i + 1).drop_last() =~= self.rows@.take(i as int));
            if self.rows[i].0.same(&key) {
                found = Some(self.rows[i].1);
            }
            i = i + 1;
        }
        assert(self.rows@.take(i as int) =~= self.rows@);
        found
    }

    /// Removes the value under `key`, if there is one.
    pub fn remove(&mut self, key: K)
        ensures
            final(self)@ == old(self)@.remove(key),
    {
        let mut kept: Vec<(K, V)> = Vec::new();
        let mut i: usize = 0;
        while i < self.rows.len()
            invariant
                i <= self.rows.len(),
                rows_map(kept@) =~= rows_map(self.rows@.take(i as int)).remove(key),
            decreases self.rows.len() - i,
        {
            assert(self.rows@.take(i + 1).drop_last() =~= self.rows@.take(i as int));
            let row = self.rows[i];
            if !row.0.same(&key) {
                let ghost before = kept@;
                kept.push(row);
                assert(kept@.drop_last() =~= before);
            }
            i = i + 1;
        }
        assert(self.rows@.take(i as int) =~= self.rows@);
        self.rows = kept;
    }

    /// Puts `value` under `key`, in place of what was there.
    pub fn set(&mut self, key: K, value: V)
        ensures
            final(self)@ == old(self)@.insert(key, value),
    {
        self.remove(key);
        let ghost before = self.rows@;
        self.rows.push((key, value));
        assert(self.rows@.drop_last() =~= before);
        assert(self@ =~= old(self)@.insert(key, value));
    }
}

} // verus!
