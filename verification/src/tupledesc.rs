//! Model of tuple descriptors: the shape of a relation's rows.

use vstd::prelude::*;

use crate::types::Oid;

verus! {

/// The host's descriptor record for a row shape.
#[derive(Clone, Copy, Debug, PartialEq, Eq, Structural)]
pub struct RawTupleDesc {
    /// Number of attributes (columns).
    pub natts: i32,
    pub tdtypeid: Oid,
    pub tdtypmod: i32,
    pub tdhasoid: u8,
    pub tdrefcount: i32,
}

/// A handle on a tuple descriptor.
pub trait TupleDesc: Sized {
    /// The descriptor record this handle stands for.
    spec fn spec_raw(&self) -> RawTupleDesc;

    /// The raw descriptor record.
    fn as_raw(&self) -> (r: RawTupleDesc)
        ensures
            r == self.spec_raw(),
    ;

    /// A handle over a raw descriptor record.
    fn from_raw(raw: RawTupleDesc) -> (r: Self)
        ensures
            r.spec_raw() == raw,
    ;

    /// The number of attributes in the described rows.
    fn num_attributes(&self) -> (n: i32)
        ensures
            n == self.spec_raw().natts,
    {
        self.as_raw().natts
    }
}

/// An owning, reference-counted handle; the count itself lives in the host.
pub struct RcTupleDesc {
    pub raw: RawTupleDesc,
}

/// A borrowed handle.
#[derive(Clone, Copy)]
pub struct RefTupleDesc {
    pub raw: RawTupleDesc,
}

impl TupleDesc for RcTupleDesc {
    open spec fn spec_raw(&self) -> RawTupleDesc {
        self.raw
    }

    fn as_raw(&self) -> (r: RawTupleDesc) {
        self.raw
    }

    fn from_raw(raw: RawTupleDesc) -> (r: RcTupleDesc) {
        RcTupleDesc { raw }
    }
}

impl TupleDesc for RefTupleDesc {
    open spec fn spec_raw(&self) -> RawTupleDesc {
        self.raw
    }

    fn as_raw(&self) -> (r: RawTupleDesc) {
        self.raw
    }

    fn from_raw(raw: RawTupleDesc) -> (r: RefTupleDesc) {
        RefTupleDesc { raw }
    }
}

} // verus!
