//! Model of sequential heap scans over an opened relation.

use vstd::prelude::*;

use crate::relation::{Relation, Tuple};
use crate::tupledesc::RefTupleDesc;
use crate::tupleslot::TupleSlot;

verus! {

/// An opened heap relation.  The host resolves the identifier, takes the
/// lock, and hands the relation over.
pub struct Heap {
    pub rel: Relation,
}

/// A raw scan: a cursor over the relation's rows, in storage order.
pub struct RawHeapScan {
    pub pos: usize,
}

/// A scan that stores each visited row into a slot.
pub struct HeapScan {
    pub raw: RawHeapScan,
    pub slot: TupleSlot<RefTupleDesc>,
}

impl Heap {
    /// Takes charge of a relation the host opened.
    pub fn open(rel: Relation) -> (h: Heap)
        ensures
            h.rel == rel,
    {
        Heap { rel }
    }

    /// The relation's row descriptor.
    pub fn tuple_desc(&self) -> (d: RefTupleDesc)
        ensures
            d.raw == self.rel.td,
    {
        RefTupleDesc { raw: self.rel.td }
    }

    /// Starts a raw scan at the first row.
    pub fn scan_raw(&self) -> (s: RawHeapScan)
        ensures
            s.pos == 0,
    {
        RawHeapScan { pos: 0 }
    }

    /// Starts a slot-backed scan at the first row.
    pub fn scan(&self) -> (s: HeapScan)
        ensures
            s.raw.pos == 0,
            s.slot.desc.raw == self.rel.td,
            s.slot.tuple is None,
    {
        HeapScan { raw: self.scan_raw(), slot: TupleSlot::create(self.tuple_desc()) }
    }
}

impl RawHeapScan {
    /// The index of the next row, advancing the cursor; `None` past the end.
    pub fn next(&mut self, heap: &Heap) -> (r: Option<usize>)
        ensures
            old(self).pos < heap.rel.tuples.len() ==> r == Some(old(self).pos) && final(self).pos
                == old(self).pos + 1,
            old(self).pos >= heap.rel.tuples.len() ==> r is None && final(self).pos == old(
                self,
            ).pos,
    {
        if self.pos < heap.rel.tuples.len() {
            let i: usize = self.pos;
            self.pos = i + 1;
            Some(i)
        } else {
            None
        }
    }
}

impl HeapScan {
    /// Stores the next row into the slot and returns a copy of it; `None`
    /// past the end.
    pub fn next(&mut self, heap: &Heap) -> (r: Option<Tuple>)
        ensures
            old(self).raw.pos < heap.rel.tuples.len() ==> {
                &&& r matches Some(t) && t@ == heap.rel.tuples[old(self).raw.pos as int]@
                &&& final(self).raw.pos == old(self).raw.pos + 1
                &&& final(self).slot.tuple matches Some(t2) && t2@ == heap.rel.tuples[old(
                    self,
                ).raw.pos as int]@
            },
            old(self).raw.pos >= heap.rel.tuples.len() ==> r is None && final(self).raw.pos == old(
                self,
            ).raw.pos && final(self).slot == old(self).slot,
    {
        match self.raw.next(heap) {
            None => None,
            Some(i) => {
                let row = copy_tuple(&heap.rel.tuples[i]);
                let out = copy_tuple(&row);
                self.slot.store_tuple(row, 0);
                Some(out)
            },
        }
    }
}

/// A by-value copy of a row.
pub fn copy_tuple(t: &Tuple) -> (r: Tuple)
    ensures
        r@ == t@,
{
    let mut r: Tuple = Vec::new();
    let mut i: usize = 0;
    while i < t.len()
        invariant
            i <= t.len(),
            r@ == t@.subrange(0, i as int),
        decreases t.len() - i,
    {
        r.push(t[i]);
        proof {
            assert(r@ =~= t@.subrange(0, (i + 1) as int));
        }
        i = i + 1;
    }
    proof {
        assert(t@.subrange(0, t.len() as int) =~= t@);
    }
    r
}

} // verus!
