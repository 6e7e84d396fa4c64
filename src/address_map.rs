//! Tables keyed by address that hold one row per address.
use crate::address::Address;
use vstd::prelude::*;

verus! {



/// The map that the rows spell: later rows win over earlier ones.
pub open spec fn rows_to_map<V>(rows: Seq<(Address, V)>) -> Map<Seq<u8>, V>
    decreases rows.len(),
{
    if rows.len() == 0 {
        Map::<Seq<u8>, V>::empty()
    } else {
        rows_to_map(rows.drop_last()).insert(rows.last().0@, rows.last().1)
    }
}

/// No two rows belong to the same allocation.
pub open spec fn keys_distinct<V>(rows: Seq<(Address, V)>) -> bool {
    forall|i: int, j: int| 0 <= i < rows.len() && 0 <= j < rows.len() && i != j ==> rows[i].0@
        != rows[j].0@
}

proof fn lemma_rows_to_map_lookup<V>(rows: Seq<(Address, V)>, i: int)
    requires
        keys_distinct(rows),
        0 <= i < rows.len(),
    ensures
        rows_to_map(rows).contains_key(rows[i].0@),
        rows_to_map(rows)[rows[i].0@] == rows[i].1,
    decreases rows.len(),
{
    if i < rows.len() - 1 {
        let init = rows.drop_last();
        assert(keys_distinct(init));
        assert(init[i] == rows[i]);
        lemma_rows_to_map_lookup(init, i);
        assert(rows[rows.len() - 1].0@ != rows[i].0@);
    }
}

proof fn lemma_rows_to_map_domain<V>(rows: Seq<(Address, V)>, k: Seq<u8>)
    requires
        rows_to_map(rows).contains_key(k),
    ensures
        exists|i: int| 0 <= i < rows.len() && rows[i].0@ == k,
    decreases rows.len(),
{
    let init = rows.drop_last();
    if rows.last().0@ == k {
        assert(rows[rows.len() - 1].0@ == k);
    } else {
        lemma_rows_to_map_domain(init, k);
        let i = choose|i: int| 0 <= i < init.len() && init[i].0@ == k;
        assert(rows[i] == init[i]);
    }
}

proof fn lemma_rows_to_map_update<V>(rows: Seq<(Address, V)>, i: int, row: (Address, V))
    requires
        keys_distinct(rows),
        0 <= i < rows.len(),
        rows[i].0@ == row.0@,
    ensures
        rows_to_map(rows.update(i, row)) == rows_to_map(rows).insert(row.0@, row.1),
    decreases rows.len(),
{
    let init = rows.drop_last();
    let updated = rows.update(i, row);
    if i == rows.len() - 1 {
        assert(updated.drop_last() =~= init);
        assert(rows_to_map(updated) =~= rows_to_map(rows).insert(row.0@, row.1));
    } else {
        assert(keys_distinct(init));
        assert(init[i] == rows[i]);
        lemma_rows_to_map_update(init, i, row);
        assert(updated.drop_last() =~= init.update(i, row));
        assert(rows.last().0@ != row.0@) by {
            assert(rows[rows.len() - 1].0@ != rows[i].0@);
        }
        assert(rows_to_map(updated) =~= rows_to_map(rows).insert(row.0@, row.1));
    }
}

/// A table keyed by address, with at most one row per address.
pub struct AddressMap<V> {
    rows: Vec<(Address, V)>,
}

impl<V: Copy> AddressMap<V> {
    pub closed spec fn spec_rows(&self) -> Seq<(Address, V)> {
        self.rows@
    }

    /// The value held for each address.
    pub open spec fn view(&self) -> Map<Seq<u8>, V> {
        rows_to_map(self.spec_rows())
    }

    pub open spec fn wf(&self) -> bool {
        keys_distinct(self.spec_rows())
    }

    pub fn new() -> (r: AddressMap<V>)
        ensures
            r.wf(),
            r.view() == Map::<Seq<u8>, V>::empty(),
    {
        AddressMap { rows: Vec::new() }
    }

    fn find(&self, key: &Address) -> (r: Option<usize>)
        requires
            self.wf(),
        ensures
            r is None ==> !self.view().contains_key(key@),
            r is Some ==> r->0 < self.rows@.len() && self.rows@[r->0 as int].0@ == key@,
    {
        let mut i: usize = 0;
        while i < self.rows.len()
            invariant
                i <= self.rows@.len(),
                forall|j: int| 0 <= j < i ==> #[trigger] self.rows@[j].0@ != key@,
            decreases self.rows@.len() - i,
        {
            if self.rows[i].0.same_as(key) {
                return Some(i);
            }
            i = i + 1;
        }
        proof {
            if self.view().contains_key(key@) {
                lemma_rows_to_map_domain(self.rows@, key@);
            }
        }
        None
    }

    /// The value held for `key`, if any.
    pub fn get(&self, key: &Address) -> (r: Option<V>)
        requires
            self.wf(),
        ensures
            r == self.view().get(key@),
    {
        match self.find(key) {
            Some(i) => {
                proof {
                    lemma_rows_to_map_lookup(self.rows@, i as int);
                }
                Some(self.rows[i].1)
            },
            None => None,
        }
    }

    /// Inserts `rav` for `key`, or replaces the value there: the
    /// address keeps exactly one row.
    pub fn upsert(&mut self, key: &Address, value: V)
        requires
            old(self).wf(),
        ensures
            final(self).wf(),
            final(self).view() == old(self).view().insert(key@, value),
    {
        let row = (*key, value);
        match self.find(key) {
            Some(i) => {
                proof {
                    lemma_rows_to_map_update(self.rows@, i as int, row);
                }
                self.rows.set(i, row);
            },
            None => {
                proof {
                    assert(self.rows@.push(row).drop_last() =~= self.rows@);
                    assert forall|j: int| 0 <= j < self.rows@.len() implies #[trigger] self.rows@[j].0@
                        != key@ by {
                        if self.rows@[j].0@ == key@ {
                            lemma_rows_to_map_lookup(self.rows@, j);
                        }
                    }
                }
                self.rows.push(row);
            },
        }
    }
}

} // verus!
