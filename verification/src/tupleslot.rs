//! Model of tuple table slots: a one-row buffer a scan stores into.

use vstd::prelude::*;

use crate::relation::Tuple;
use crate::tupledesc::{RefTupleDesc, TupleDesc};
use crate::Datum;

verus! {

/// A slot holding at most one row of the described shape.
pub struct TupleSlot<T: TupleDesc> {
    pub desc: T,
    pub tuple: Option<Tuple>,
}

/// A filled slot, lending out the stored row's attributes.
pub struct SlottedTuple<'a, T: TupleDesc> {
    pub slot: &'a TupleSlot<T>,
}

impl<T: TupleDesc> TupleSlot<T> {
    /// A fresh, empty slot for rows of the given shape.
    pub fn create(tupledesc: T) -> (s: TupleSlot<T>)
        ensures
            s.desc == tupledesc,
            s.tuple is None,
    {
        TupleSlot { desc: tupledesc, tuple: None }
    }

    /// Stores a row into the slot.  The buffer identifier the host would pin
    /// is not part of the model.
    pub fn store_tuple(&mut self, tuple: Tuple, _buffer: i32)
        ensures
            final(self).desc == old(self).desc,
            final(self).tuple == Some(tuple),
    {
        self.tuple = Some(tuple);
    }

    /// The filled slot, ready for attribute access.
    pub fn filled<'a>(&'a self) -> (st: SlottedTuple<'a, T>)
        requires
            self.tuple is Some,
        ensures
            st.slot == self,
    {
        SlottedTuple { slot: self }
    }

    /// The descriptor of the stored rows.
    pub fn tupledesc(&self) -> (d: RefTupleDesc)
        ensures
            d.raw == self.desc.spec_raw(),
    {
        RefTupleDesc { raw: self.desc.as_raw() }
    }
}

impl<'a, T: TupleDesc> SlottedTuple<'a, T> {
    /// The slot this row sits in.
    pub fn slot(&self) -> (s: &'a TupleSlot<T>)
        ensures
            s == self.slot,
    {
        self.slot
    }

    /// The value of the user attribute numbered `attr` (attributes count
    /// from one); `None` is SQL NULL.  System attributes, which the host
    /// serves under negative numbers, live outside the stored row and are
    /// not part of the model; the host raises an error for an attribute
    /// number outside the row.
    pub fn attribute(&self, attr: i32) -> (r: Option<Datum>)
        requires
            self.slot.tuple is Some,
            1 <= attr <= self.slot.tuple.unwrap().len(),
        ensures
            r == self.slot.tuple.unwrap()[attr - 1],
    {
        match &self.slot.tuple {
            Some(t) => t[(attr - 1) as usize],
            None => None,
        }
    }
}

} // verus!
