//! Model of index scans: equality scans over an opened heap's rows.

use vstd::prelude::*;

use crate::heap::{copy_tuple, Heap};
use crate::relation::{Relation, Tuple};
use crate::tupledesc::RefTupleDesc;
use crate::tupleslot::TupleSlot;
use crate::Datum;

verus! {

/// One scan key: the attribute number (counting from one) and the value the
/// attribute must equal.  The model supports the equality strategy only, as
/// the host-side code it stands for does.
#[derive(Clone, Copy, Debug, PartialEq, Eq, Structural)]
pub struct ScanKey {
    pub column: u16,
    pub value: usize,
}

impl ScanKey {
    pub fn new(column: u16, value: usize) -> (k: ScanKey)
        ensures
            k.column == column,
            k.value == value,
    {
        ScanKey { column, value }
    }
}

/// Whether a row satisfies a scan key: the keyed attribute exists, is not
/// NULL, and equals the key's value.
pub open spec fn key_matches(t: Seq<Option<Datum>>, k: ScanKey) -> bool {
    &&& 1 <= k.column
    &&& k.column as int <= t.len()
    &&& t[k.column as int - 1] matches Some(d) && d.spec_value() == k.value
}

/// Whether a row is selected by a scan: with no key, every row; with a key,
/// the rows that satisfy it.
pub open spec fn selected(t: Seq<Option<Datum>>, key: Option<ScanKey>) -> bool {
    match key {
        Some(k) => key_matches(t, k),
        None => true,
    }
}

/// An opened index relation.  The host resolves the identifier, takes the
/// lock, and hands the relation over.
pub struct Index {
    pub rel: Relation,
}

/// A raw index scan over a heap: a cursor that visits, in storage order, the
/// heap rows selected by the key.
pub struct RawIndexScan {
    pub pos: usize,
    pub key: Option<ScanKey>,
}

/// An index scan that stores each selected row into a slot.
pub struct IndexScan {
    pub raw: RawIndexScan,
    pub slot: TupleSlot<RefTupleDesc>,
}

impl Index {
    /// Takes charge of an index relation the host opened.
    pub fn open(rel: Relation) -> (ix: Index)
        ensures
            ix.rel == rel,
    {
        Index { rel }
    }

    /// Starts a raw scan over `heap` under at most one scan key.
    pub fn scan_raw(&self, heap: &Heap, scankeys: &[ScanKey]) -> (s: RawIndexScan)
        requires
            scankeys@.len() <= 1,
        ensures
            s.pos == 0,
            scankeys@.len() == 1 ==> s.key == Some(scankeys@[0]),
            scankeys@.len() == 0 ==> s.key is None,
    {
        let key: Option<ScanKey> = if scankeys.len() == 1 {
            Some(scankeys[0])
        } else {
            None
        };
        RawIndexScan { pos: 0, key }
    }

    /// Starts a slot-backed scan over `heap` under at most one scan key.
    pub fn scan(&self, heap: &Heap, scankeys: &[ScanKey]) -> (s: IndexScan)
        requires
            scankeys@.len() <= 1,
        ensures
            s.raw.pos == 0,
            scankeys@.len() == 1 ==> s.raw.key == Some(scankeys@[0]),
            scankeys@.len() == 0 ==> s.raw.key is None,
            s.slot.desc.raw == heap.rel.td,
            s.slot.tuple is None,
    {
        IndexScan {
            raw: self.scan_raw(heap, scankeys),
            slot: TupleSlot::create(heap.tuple_desc()),
        }
    }
}

impl IndexScan {
    /// Stores the next selected row into the slot and returns a copy of it;
    /// `None` once no selected row is left.
    pub fn next(&mut self, heap: &Heap) -> (r: Option<Tuple>)
        ensures
            final(self).raw.key == old(self).raw.key,
            r matches Some(t) ==> exists|k: int|
                {
                    &&& old(self).raw.pos <= k < heap.rel.tuples.len()
                    &&& selected(#[trigger] heap.rel.tuples[k]@, old(self).raw.key)
                    &&& forall|j: int|
                        old(self).raw.pos <= j < k ==> !selected(
                            #[trigger] heap.rel.tuples[j]@,
                            old(self).raw.key,
                        )
                    &&& t@ == heap.rel.tuples[k]@
                    &&& final(self).raw.pos == k + 1
                    &&& final(self).slot.tuple matches Some(t2) && t2@ == heap.rel.tuples[k]@
                },
            r is None ==> forall|j: int|
                old(self).raw.pos <= j < heap.rel.tuples.len() ==> !selected(
                    #[trigger] heap.rel.tuples[j]@,
                    old(self).raw.key,
                ),
    {
        match self.raw.next(heap) {
            None => None,
            Some(i) => {
                let row = copy_tuple(&heap.rel.tuples[i]);
                let out = copy_tuple(&row);
                self.slot.store_tuple(row, 0);
                Some(out)
            },
        }
    }
}

impl RawIndexScan {
    /// The index of the next selected row, advancing the cursor past it;
    /// `None` once no selected row is left.
    pub fn next(&mut self, heap: &Heap) -> (r: Option<usize>)
        ensures
            final(self).key == old(self).key,
            r matches Some(k) ==> {
                &&& old(self).pos <= k < heap.rel.tuples.len()
                &&& selected(heap.rel.tuples[k as int]@, old(self).key)
                &&& forall|j: int|
                    old(self).pos <= j < k ==> !selected(
                        #[trigger] heap.rel.tuples[j]@,
                        old(self).key,
                    )
                &&& final(self).pos == k + 1
            },
            r is None ==> {
                &&& forall|j: int|
                    old(self).pos <= j < heap.rel.tuples.len() ==> !selected(
                        #[trigger] heap.rel.tuples[j]@,
                        old(self).key,
                    )
                &&& final(self).pos == heap.rel.tuples.len()
            },
    {
        let n = heap.rel.tuples.len();
        let mut i: usize = if self.pos < n {
            self.pos
        } else {
            n
        };
        while i < n
            invariant
                i <= n,
                old(self).pos <= i || i == n,
                n == heap.rel.tuples.len(),
                self.pos == old(self).pos,
                self.key == old(self).key,
                forall|j: int|
                    old(self).pos <= j < i ==> !selected(
                        #[trigger] heap.rel.tuples[j]@,
                        old(self).key,
                    ),
            decreases n - i,
        {
            let row = &heap.rel.tuples[i];
            let hit: bool = match &self.key {
                Some(k) => {
                    if k.column >= 1 && (k.column as usize) <= row.len() {
                        match row[(k.column - 1) as usize] {
                            Some(d) => d.value() == k.value,
                            None => false,
                        }
                    } else {
                        false
                    }
                },
                None => true,
            };
            if hit {
                self.pos = i + 1;
                return Some(i);
            }
            i = i + 1;
        }
        self.pos = n;
        None
    }
}

} // verus!
