//! Entry points (exports) of the analysed program.
//!
//! The database lists its entry points by index; each listed entry has an
//! ordinal and an address, and an address of [`BADADDR`] marks an entry that
//! is listed but does not exist. [`EntryRecord`]s hold that list, one per
//! index, and [`EntryIterator`] walks it, yielding the entries that exist.
use vstd::prelude::*;

use crate::{Address, BADADDR};

verus! {

/// One listed entry point, as the database reports it for one index.
#[derive(Debug, Clone, Copy, PartialEq, Eq)]
pub struct EntryRecord {
    pub ordinal: u64,
    pub address: Address,
}

/// An entry point (export) of the program: its address and its ordinal.
#[derive(Debug, Clone, Copy)]
pub struct Entry {
    address: Address,
    ordinal: u64,
}

impl View for Entry {
    type V = EntryRecord;

    closed spec fn view(&self) -> EntryRecord {
        EntryRecord { ordinal: self.ordinal, address: self.address }
    }
}

impl Entry {
    /// The virtual address of the entry point.
    pub fn address(&self) -> (r: Address)
        ensures
            r == self@.address,
    {
        self.address
    }

    /// The ordinal number of the entry point.
    pub fn ordinal(&self) -> (r: u64)
        ensures
            r == self@.ordinal,
    {
        self.ordinal
    }
}

/// Whether a listed entry exists, that is, has an address.
pub open spec fn is_live(rec: EntryRecord) -> bool {
    rec.address != BADADDR
}

/// The listed entries that exist, in listing order.
pub open spec fn live_records(rows: Seq<EntryRecord>) -> Seq<EntryRecord>
    decreases rows.len(),
{
    if rows.len() == 0 {
        Seq::empty()
    } else {
        let rest = live_records(rows.drop_first());
        if is_live(rows[0]) {
            seq![rows[0]] + rest
        } else {
            rest
        }
    }
}

/// An iterator over the entry points of a listing, skipping those that do
/// not exist.
pub struct EntryIterator<'a> {
    records: &'a [EntryRecord],
    index: usize,
    limit: usize,
}

impl<'a> EntryIterator<'a> {
    #[verifier::type_invariant]
    spec fn well_formed(self) -> bool {
        &&& self.limit == self.records@.len()
        &&& self.index <= self.limit
    }

    /// The listing being walked.
    pub closed spec fn spec_records(&self) -> Seq<EntryRecord> {
        self.records@
    }

    /// The index of the next listed entry to look at.
    pub closed spec fn spec_index(&self) -> nat {
        self.index as nat
    }

    /// The entries that the iterator has still to yield, in order.
    pub open spec fn remaining(&self) -> Seq<EntryRecord> {
        live_records(
            self.spec_records().subrange(self.spec_index() as int, self.spec_records().len() as int),
        )
    }

    /// An iterator over the whole listing.
    pub fn new(records: &'a [EntryRecord]) -> (r: Self)
        ensures
            r.spec_records() == records@,
            r.spec_index() == 0,
    {
        EntryIterator { records, index: 0, limit: records.len() }
    }
    /// The next entry that exists, if any; listed entries that do not exist
    /// are passed over.
    pub fn next(&mut self) -> (r: Option<Entry>)
        ensures
            final(self).spec_records() == old(self).spec_records(),
            final(self).spec_index() <= final(self).spec_records().len(),
            old(self).remaining() == (match r {
                Some(e) => seq![e@],
                None => Seq::empty(),
            }) + final(self).remaining(),
            r is None ==> final(self).spec_index() == old(self).spec_records().len(),
            r matches Some(e) ==> {
                &&& old(self).spec_index() < final(self).spec_index()
                &&& final(self).spec_index() <= old(self).spec_records().len()
                &&& old(self).spec_records()[final(self).spec_index() - 1] == e@
                &&& is_live(e@)
                &&& forall|j: int|
                    old(self).spec_index() <= j < final(self).spec_index() - 1 ==> !is_live(
                        #[trigger] old(self).spec_records()[j],
                    )
            },
    {
        proof {
            use_type_invariant(&*self);
        }
        let ghost rows = self.records@;
        let ghost start = self.index as int;
        let ghost n = rows.len() as int;
        while self.index < self.limit
            invariant
                self.records@ == rows,
                old(self).spec_records() == rows,
                old(self).spec_index() == start,
                self.limit == n,
                n == rows.len(),
                start <= self.index <= n,
                forall|j: int| start <= j < self.index ==> !is_live(#[trigger] rows[j]),
                live_records(rows.subrange(start, n)) == live_records(
                    rows.subrange(self.index as int, n),
                ),
            decreases self.limit - self.index,
        {
            let rec = self.records[self.index];
            proof {
                lemma_live_records_step(rows, self.index as int, n);
            }
            self.index = self.index + 1;
            if rec.address != BADADDR {
                return Some(Entry { address: rec.address, ordinal: rec.ordinal });
            }
        }
        proof {
            assert(rows.subrange(n, n) =~= Seq::<EntryRecord>::empty());
        }
        None
    }

    /// Bounds on the number of entries still to come: at least none, at
    /// most the number of listed entries not yet looked at. The upper bound
    /// is sound: the entries the iterator has still to yield never outnumber
    /// it.
    pub fn size_hint(&self) -> (r: (usize, Option<usize>))
        ensures
            self.spec_index() <= self.spec_records().len() <= usize::MAX,
            r == (0usize, Some((self.spec_records().len() - self.spec_index()) as usize)),
            self.remaining().len() <= self.spec_records().len() - self.spec_index(),
    {
        proof {
            use_type_invariant(self);
            lemma_live_records_len(
                self.records@.subrange(self.index as int, self.records@.len() as int),
            );
        }
        (0, Some(self.limit - self.index))
    }
}

/// An iterator over all entry points of a listing.
pub fn entries<'a>(records: &'a [EntryRecord]) -> (r: EntryIterator<'a>)
    ensures
        r.spec_records() == records@,
        r.spec_index() == 0,
        r.remaining() == live_records(records@),
{
    let it = EntryIterator::new(records);
    assert(records@.subrange(0, records@.len() as int) =~= records@);
    it
}

/// Looking at one more listed entry: it joins the entries that exist if it
/// has an address, and is passed over otherwise.
pub proof fn lemma_live_records_step(rows: Seq<EntryRecord>, i: int, n: int)
    requires
        0 <= i < n <= rows.len(),
    ensures
        live_records(rows.subrange(i, n)) == (if is_live(rows[i]) {
            seq![rows[i]] + live_records(rows.subrange(i + 1, n))
        } else {
            live_records(rows.subrange(i + 1, n))
        }),
{
    assert(rows.subrange(i, n).drop_first() =~= rows.subrange(i + 1, n));
}

/// There are never more existing entries than listed ones.
pub proof fn lemma_live_records_len(rows: Seq<EntryRecord>)
    ensures
        live_records(rows).len() <= rows.len(),
    decreases rows.len(),
{
    if rows.len() > 0 {
        lemma_live_records_len(rows.drop_first());
    }
}

} // verus!
