//! A verified model of a bridge between a stack-unwinding guest runtime and a
//! PostgreSQL-style host whose error propagation uses non-local jumps.
//!
//! The host's mutable globals (the active jump target, the error context
//! stack, the pending error record, the single panic-payload slot, and the
//! memory-context store) are modelled as one explicit state value,
//! [`host::HostState`].  Guest computations are functions from that state to a
//! new state plus an exit channel ([`host::Control`]): a normal return, a
//! non-local jump raised by the host, or a guest unwind.  The bridge
//! primitives — the catch scope, the two converters and the re-throw — are
//! verified state transitions over this model.

#![allow(non_camel_case_types)]

use vstd::prelude::*;

pub mod catalog;
pub mod error;
pub mod export;
pub mod heap;
pub mod host;
pub mod index;
pub mod magic;
pub mod memory;
pub mod relation;
pub mod samples;
pub mod spi;
pub mod tupledesc;
pub mod tupleslot;
pub mod types;
pub mod varlena;

verus! {

/// Largest number of arguments a host-callable function may take.
pub const FUNC_MAX_ARGS: usize = 100;
/// Largest number of key columns in an index.
pub const INDEX_MAX_KEYS: usize = 32;
/// Size of a catalog name field, trailing zero byte included.
pub const NAMEDATALEN: usize = 64;
/// Host version number, in the host's `major * 10000 + minor` convention.
pub const PG_VERSION: usize = 100000;

/// Whether the host passes 32-bit reals by value.
pub const FLOAT4_BYVAL: bool = true;

/// Whether the host passes 64-bit reals by value.
pub const FLOAT8_BYVAL: bool = true;

/// A value as passed across the host call boundary: either an immediate
/// integer or, for by-reference types, a handle standing in for a pointer.
#[derive(Clone, Copy, Debug, PartialEq, Eq, Structural)]
pub struct Datum(usize);

impl Datum {
    /// The raw value this datum carries.
    pub closed spec fn spec_value(self) -> usize {
        self.0
    }

    /// The datum carrying a given raw value.
    pub closed spec fn spec_new(value: usize) -> Datum {
        Datum(value)
    }

    pub fn create(value: usize) -> (d: Datum)
        ensures
            d == Datum::spec_new(value),
            d.spec_value() == value,
    {
        Datum(value)
    }

    /// Reads the raw value back out of the datum.
    pub fn value(self) -> (v: usize)
        ensures
            v == self.spec_value(),
    {
        self.0
    }
}

} // verus!
