//! The store of records, each at one address.

use vstd::prelude::*;
use crate::types::{Address, Record};

verus! {

/// One stored record and where it lives.
#[derive(Debug)]
pub struct Entry {
    pub address: Address,
    pub record: Record,
}

/// Whether entry `i` lives at address `a`.
pub open spec fn lives_at(entries: Seq<Entry>, i: int, a: Address) -> bool {
    0 <= i < entries.len() && entries[i].address == a
}

/// No address holds two records.
pub open spec fn distinct(entries: Seq<Entry>) -> bool {
    forall|i: int, j: int|
        0 <= i < j < entries.len() ==> (#[trigger] entries[i]).address != (#[trigger] entries[j]).address
}

/// The entries as a map from address to record.
pub open spec fn table(entries: Seq<Entry>) -> Map<Address, Record> {
    Map::new(
        |a: Address| exists|i: int| lives_at(entries, i, a),
        |a: Address| entries[choose|i: int| lives_at(entries, i, a)].record,
    )
}

proof fn lemma_table_at(entries: Seq<Entry>, i: int, a: Address)
    requires
        distinct(entries),
        lives_at(entries, i, a),
    ensures
        table(entries).dom().contains(a),
        table(entries)[a] == entries[i].record,
{
    let k = choose|k: int| lives_at(entries, k, a);
    assert(lives_at(entries, k, a));
    if k != i {
        if k < i {
            assert(entries[k].address != entries[i].address);
        } else {
            assert(entries[i].address != entries[k].address);
        }
    }
}

proof fn lemma_table_update(before: Seq<Entry>, i: int, a: Address, record: Record)
    requires
        distinct(before),
        lives_at(before, i, a),
    ensures
        distinct(before.update(i, Entry { address: a, record })),
        table(before.update(i, Entry { address: a, record })) == table(before).insert(a, record),
{
    let after = before.update(i, Entry { address: a, record });
    assert(distinct(after)) by {
        assert forall|p: int, q: int| 0 <= p < q < after.len() implies after[p].address != after[q].address by {
            assert(after[p].address == before[p].address);
            assert(after[q].address == before[q].address);
        }
    }
    assert forall|k: Address| #[trigger] table(after).dom().contains(k) == table(before).insert(a, record).dom().contains(k) by {
        if table(after).dom().contains(k) {
            let p = choose|p: int| lives_at(after, p, k);
            assert(lives_at(before, p, k));
        }
        if table(before).dom().contains(k) {
            let p = choose|p: int| lives_at(before, p, k);
            assert(lives_at(after, p, k));
        }
        if k == a {
            assert(lives_at(after, i, k));
        }
    }
    assert forall|k: Address| table(after).dom().contains(k) implies #[trigger] table(after)[k] == table(before).insert(a, record)[k] by {
        let p = choose|p: int| lives_at(after, p, k);
        lemma_table_at(after, p, k);
        if k != a {
            assert(lives_at(before, p, k));
            lemma_table_at(before, p, k);
        } else {
            lemma_table_at(after, i, k);
        }
    }
    assert(table(after) =~= table(before).insert(a, record));
}

/// All records of one deployment of the program.
#[derive(Debug)]
pub struct Ledger {
    program_id: Address,
    entries: Vec<Entry>,
}

impl View for Ledger {
    type V = Map<Address, Record>;

    closed spec fn view(&self) -> Map<Address, Record> {
        table(self.entries@)
    }
}

impl Ledger {
    /// No address holds two records.
    pub closed spec fn wf(&self) -> bool {
        distinct(self.entries@)
    }

    /// The identity of the program that owns the records.
    pub closed spec fn program(&self) -> Address {
        self.program_id
    }

    /// An empty ledger for the program `program_id`.
    pub fn new(program_id: Address) -> (r: Ledger)
        ensures
            r.wf(),
            r@ == Map::<Address, Record>::empty(),
            r.program() == program_id,
    {
        let r = Ledger { program_id, entries: Vec::new() };
        assert(r@ =~= Map::<Address, Record>::empty());
        r
    }

    /// The identity of the program that owns the records.
    pub fn program_id(&self) -> (r: Address)
        ensures
            r == self.program(),
    {
        self.program_id
    }

    fn position(&self, a: &Address) -> (r: Option<usize>)
        ensures
            match r {
                Some(i) => lives_at(self.entries@, i as int, *a),
                None => !self@.dom().contains(*a),
            },
    {
        let mut i: usize = 0;
        while i < self.entries.len()
            invariant
                i <= self.entries@.len(),
                forall|j: int| 0 <= j < i ==> !lives_at(self.entries@, j, *a),
            decreases self.entries@.len() - i,
        {
            if self.entries[i].address.same(a) {
                return Some(i);
            }
            i += 1;
        }
        None
    }

    /// The record at `a`, if there is one.
    pub fn get(&self, a: &Address) -> (r: Option<&Record>)
        requires
            self.wf(),
        ensures
            match r {
                Some(x) => self@.dom().contains(*a) && self@[*a] == *x,
                None => !self@.dom().contains(*a),
            },
    {
        match self.position(a) {
            Some(i) => {
                proof {
                    lemma_table_at(self.entries@, i as int, *a);
                }
                Some(&self.entries[i].record)
            },
            None => None,
        }
    }

    /// Whether a record exists at `a`.
    pub fn exists_at(&self, a: &Address) -> (r: bool)
        ensures
            r == self@.dom().contains(*a),
    {
        match self.position(a) {
            Some(i) => {
                assert(lives_at(self.entries@, i as int, *a));
                true
            },
            None => false,
        }
    }

    /// Stores `record` at `a`, in place of what was there. This is how a host
    /// loads the records that a request names; it checks nothing.
    pub fn put(&mut self, a: Address, record: Record)
        requires
            old(self).wf(),
        ensures
            final(self).wf(),
            final(self).program() == old(self).program(),
            final(self)@ == old(self)@.insert(a, record),
    {
        let ghost before = self.entries@;
        match self.position(&a) {
            Some(i) => {
                self.entries.set(i, Entry { address: a, record });
                proof {
                    lemma_table_update(before, i as int, a, record);
                }
            },
            None => {
                self.entries.push(Entry { address: a, record });
                proof {
                    let after = self.entries@;
                    let n = before.len() as int;
                    assert(distinct(after)) by {
                        assert forall|p: int, q: int| 0 <= p < q < after.len() implies after[p].address != after[q].address by {
                            if q == n {
                                assert(after[p] == before[p]);
                                if before[p].address == a {
                                    assert(lives_at(before, p, a));
                                }
                            } else {
                                assert(after[p] == before[p]);
                                assert(after[q] == before[q]);
                            }
                        }
                    }
                    assert forall|k: Address| #[trigger] table(after).dom().contains(k) == table(before).insert(a, record).dom().contains(k) by {
                        if table(after).dom().contains(k) {
                            let p = choose|p: int| lives_at(after, p, k);
                            if p < n {
                                assert(lives_at(before, p, k));
                            }
                        }
                        if table(before).dom().contains(k) {
                            let p = choose|p: int| lives_at(before, p, k);
                            assert(lives_at(after, p, k));
                        }
                        if k == a {
                            assert(lives_at(after, n, k));
                        }
                    }
                    assert forall|k: Address| table(after).dom().contains(k) implies #[trigger] table(after)[k] == table(before).insert(a, record)[k] by {
                        let p = choose|p: int| lives_at(after, p, k);
                        lemma_table_at(after, p, k);
                        if k != a {
                            assert(p < n);
                            assert(lives_at(before, p, k));
                            lemma_table_at(before, p, k);
                        } else {
                            lemma_table_at(after, n, k);
                        }
                    }
                    assert(table(after) =~= table(before).insert(a, record));
                }
            },
        }
    }
    fn slot(&mut self, i: usize) -> (r: &mut Record)
        requires
            i < old(self).entries@.len(),
        ensures
            *r == old(self).entries@[i as int].record,
            final(self).program_id == old(self).program_id,
            final(self).entries@ == old(self).entries@.update(
                i as int,
                Entry { address: old(self).entries@[i as int].address, record: *final(r) },
            ),
    {
        &mut self.entries[i].record
    }

    /// The record at `a`, to be changed in place.
    pub(crate) fn get_mut(&mut self, a: &Address) -> (r: Option<&mut Record>)
        requires
            old(self).wf(),
        ensures
            final(self).wf(),
            final(self).program() == old(self).program(),
            match r {
                Some(x) => old(self)@.dom().contains(*a) && *x == old(self)@[*a]
                    && final(self)@ == old(self)@.insert(*a, *final(x)),
                None => !old(self)@.dom().contains(*a) && *final(self) == *old(self),
            },
    {
        let ghost before = self.entries@;
        match self.position(a) {
            Some(i) => {
                proof {
                    lemma_table_at(before, i as int, *a);
                    assert forall|rec: Record| distinct(#[trigger] before.update(i as int, Entry { address: *a, record: rec }))
                        && table(before.update(i as int, Entry { address: *a, record: rec })) == table(before).insert(*a, rec) by {
                        lemma_table_update(before, i as int, *a, rec);
                    }
                }
                Some(self.slot(i))
            },
            None => None,
        }
    }
}

} // verus!
