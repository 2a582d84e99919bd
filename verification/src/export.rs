//! Model of the function-call boundary: the call-info record a host-callable
//! function receives, argument and type-check handling, and the per-call
//! context.

use vstd::prelude::*;

use crate::host::HostState;
use crate::memory::{get_current_ctx, MemoryContext};
use crate::types::{bytea, FromDatum, Oid, StaticallyTyped};
use crate::varlena::Varlena;
use crate::{Datum, FUNC_MAX_ARGS};

verus! {

/// The version record a host-callable function exports.
pub struct Pg_finfo_record {
    pub version: i32,
}

/// The version of the call convention this model follows.
pub fn pg_finfo() -> (r: Pg_finfo_record)
    ensures
        r.version == 1,
{
    Pg_finfo_record { version: 1 }
}

/// The call-info record: the called function's identity, its declared types,
/// and the actual arguments.
pub struct FunctionCallInfo {
    pub fn_oid: Oid,
    pub rettype: Oid,
    pub arg_types: Vec<Oid>,
    pub args: Vec<Datum>,
    pub argnull: Vec<bool>,
    pub isnull: bool,
}

impl FunctionCallInfo {
    /// The three per-argument arrays agree in length and fit the host's
    /// argument limit.
    pub open spec fn wf(self) -> bool {
        &&& self.args.len() == self.arg_types.len()
        &&& self.argnull.len() == self.arg_types.len()
        &&& self.arg_types.len() <= FUNC_MAX_ARGS
    }

    /// The identifier of the called function.
    pub fn oid(&self) -> (r: Oid)
        ensures
            r == self.fn_oid,
    {
        self.fn_oid
    }

    /// The declared return type of this call.
    pub fn return_type(&self) -> (r: Oid)
        ensures
            r == self.rettype,
    {
        self.rettype
    }

    /// The raw argument array, null markers ignored.
    pub fn args_strict(&self) -> (r: &Vec<Datum>)
        ensures
            r == &self.args,
    {
        &self.args
    }

    /// An iterator over the declared argument types.
    pub fn arg_types<'a>(&'a self) -> (it: ArgTypesIter<'a>)
        ensures
            it.fcinfo == self,
            it.i == 0,
    {
        ArgTypesIter { fcinfo: self, i: 0 }
    }

    /// An iterator over the arguments, `None` standing for SQL NULL.
    pub fn args<'a>(&'a self) -> (it: ArgsIter<'a>)
        ensures
            it.fcinfo == self,
            it.i == 0,
    {
        ArgsIter { fcinfo: self, i: 0 }
    }

    /// Reads argument `n` as a value of type `T`; `None` is SQL NULL.  The
    /// host-facing wrapper checks the declared type before this is reached.
    pub fn arg<T: StaticallyTyped + FromDatum>(&self, n: usize) -> (r: Option<T>)
        requires
            self.wf(),
            n < self.args.len(),
            self.arg_types[n as int] == T::spec_oid(),
        ensures
            r is Some <==> !self.argnull[n as int],
            r matches Some(v) ==> v == T::spec_from(self.args[n as int]),
    {
        if self.argnull[n] {
            None
        } else {
            Some(T::from(self.args[n]))
        }
    }

    /// Marks the call's result as SQL NULL and returns the null datum.
    pub fn return_null(&mut self) -> (d: Datum)
        ensures
            *final(self) == (FunctionCallInfo { isnull: true, ..*old(self) }),
            d == Datum::spec_new(0),
    {
        self.isnull = true;
        Datum::create(0)
    }

    /// Checks the call's declared types against what the function was
    /// compiled for: the return type, each argument type in order, and the
    /// exact argument count.
    pub fn typecheck(&self, ret_type: Oid, expected_types: &[Oid]) -> (ok: bool)
        requires
            self.wf(),
        ensures
            ok <==> (self.rettype == ret_type && self.arg_types@ == expected_types@),
    {
        if self.rettype.0 != ret_type.0 {
            proof {
                assert(self.rettype != ret_type);
            }
            return false;
        }
        if self.arg_types.len() != expected_types.len() {
            proof {
                assert(self.arg_types@.len() != expected_types@.len());
            }
            return false;
        }
        let n = expected_types.len();
        let mut i: usize = 0;
        while i < n
            invariant
                i <= n,
                n == expected_types@.len(),
                n == self.arg_types@.len(),
                forall|j: int| 0 <= j < i ==> #[trigger] self.arg_types@[j] == expected_types@[j],
            decreases n - i,
        {
            if self.arg_types[i].0 != expected_types[i].0 {
                proof {
                    assert(self.arg_types@[i as int] != expected_types@[i as int]);
                }
                return false;
            }
            i = i + 1;
        }
        proof {
            assert(self.arg_types@ =~= expected_types@);
        }
        true
    }

    /// Builds the per-call context: the call info together with the memory
    /// context that was current at call entry.
    pub fn bootstrap(self, st: &HostState) -> (ctx: FunctionCallContext)
        ensures
            ctx.fcinfo == self,
            ctx.allocator.spec_id() == st.current,
            !ctx.has_spi,
    {
        FunctionCallContext { fcinfo: self, allocator: get_current_ctx(st), has_spi: false }
    }
}

/// An iterator over a call's declared argument types.
pub struct ArgTypesIter<'a> {
    pub fcinfo: &'a FunctionCallInfo,
    pub i: usize,
}

impl<'a> ArgTypesIter<'a> {
    /// The next declared type, if any.
    pub fn next(&mut self) -> (r: Option<Oid>)
        requires
            old(self).fcinfo.wf(),
        ensures
            final(self).fcinfo == old(self).fcinfo,
            old(self).i < old(self).fcinfo.arg_types.len() ==> r == Some(
                old(self).fcinfo.arg_types[old(self).i as int],
            ) && final(self).i == old(self).i + 1,
            old(self).i >= old(self).fcinfo.arg_types.len() ==> r is None && final(self).i == old(
                self,
            ).i,
    {
        if self.i < self.fcinfo.arg_types.len() {
            let r = self.fcinfo.arg_types[self.i];
            self.i = self.i + 1;
            Some(r)
        } else {
            None
        }
    }

    /// Skips `n` types and returns the next one.  The skip width is bounded
    /// by the host's argument limit, which keeps the position arithmetic
    /// exact.
    pub fn nth(&mut self, n: usize) -> (r: Option<Oid>)
        requires
            old(self).fcinfo.wf(),
            old(self).i <= old(self).fcinfo.arg_types.len(),
            n < FUNC_MAX_ARGS,
        ensures
            final(self).fcinfo == old(self).fcinfo,
            old(self).i + n < old(self).fcinfo.arg_types.len() ==> r == Some(
                old(self).fcinfo.arg_types[old(self).i + n],
            ) && final(self).i == old(self).i + n + 1,
            old(self).i + n >= old(self).fcinfo.arg_types.len() ==> r is None,
    {
        self.i = self.i + n;
        self.next()
    }

    /// The number of types left.
    pub fn len(&self) -> (r: usize)
        requires
            self.i <= self.fcinfo.arg_types.len(),
        ensures
            r == self.fcinfo.arg_types.len() - self.i,
    {
        self.fcinfo.arg_types.len() - self.i
    }
}

/// An iterator over a call's arguments; the inner `Option` is SQL NULL.
pub struct ArgsIter<'a> {
    pub fcinfo: &'a FunctionCallInfo,
    pub i: usize,
}

impl<'a> ArgsIter<'a> {
    /// The next argument, if any.
    pub fn next(&mut self) -> (r: Option<Option<Datum>>)
        requires
            old(self).fcinfo.wf(),
        ensures
            final(self).fcinfo == old(self).fcinfo,
            old(self).i < old(self).fcinfo.args.len() ==> r == Some(
                if old(self).fcinfo.argnull[old(self).i as int] {
                    None
                } else {
                    Some(old(self).fcinfo.args[old(self).i as int])
                },
            ) && final(self).i == old(self).i + 1,
            old(self).i >= old(self).fcinfo.args.len() ==> r is None && final(self).i == old(
                self,
            ).i,
    {
        if self.i < self.fcinfo.args.len() {
            let d = self.fcinfo.args[self.i];
            let null = self.fcinfo.argnull[self.i];
            self.i = self.i + 1;
            Some(
                if null {
                    None
                } else {
                    Some(d)
                },
            )
        } else {
            None
        }
    }

    /// The number of arguments left.
    pub fn len(&self) -> (r: usize)
        requires
            self.fcinfo.wf(),
            self.i <= self.fcinfo.args.len(),
        ensures
            r == self.fcinfo.args.len() - self.i,
    {
        self.fcinfo.args.len() - self.i
    }
}

/// Largest total varlena size the host accepts: one gigabyte.
pub const VARLENA_MAX_TOTAL: usize = 0x4000_0000;

/// Builds a byte-string value of `len` zero bytes with a four-byte header.
pub fn make_zeroed_bytea(len: usize) -> (r: bytea)
    requires
        len + 4 < VARLENA_MAX_TOTAL,
    ensures
        crate::varlena::varlena_wf(r.spec_bytes()),
        crate::varlena::is_header_4b_u(r.spec_bytes()),
        r.spec_bytes().len() == len + 4,
        crate::varlena::varlena_content(r.spec_bytes()) == Seq::new(len as nat, |i: int| 0u8),
{
    bytea::from_bytes(crate::varlena::encode_varlena(crate::memory::zero_bytes(len)))
}

/// The per-call context: the call info and the ambient memory context.
pub struct FunctionCallContext {
    pub fcinfo: FunctionCallInfo,
    pub allocator: MemoryContext,
    pub has_spi: bool,
}

impl FunctionCallContext {
    /// The call info.
    pub fn fcinfo(&self) -> (r: &FunctionCallInfo)
        ensures
            r == &self.fcinfo,
    {
        &self.fcinfo
    }

    /// The memory context that was current at call entry.
    pub fn allocator(&self) -> (r: MemoryContext)
        ensures
            r == self.allocator,
    {
        self.allocator
    }

    /// Allocates a zero-filled byte-string value of `len` payload bytes from
    /// the call's memory context: the store grows by exactly one fresh
    /// `len + 4`-byte zeroed buffer owned by this call's context, and the
    /// returned value is the byte string it backs.
    pub fn alloc_bytea(&self, st: &mut HostState, len: usize) -> (r: bytea)
        requires
            old(st).wf(),
            old(st).arenas.is_alive(self.allocator.spec_id() as int),
            len + 4 < VARLENA_MAX_TOTAL,
        ensures
            final(st).wf(),
            crate::varlena::varlena_wf(r.spec_bytes()),
            crate::varlena::is_header_4b_u(r.spec_bytes()),
            r.spec_bytes().len() == len + 4,
            crate::varlena::varlena_content(r.spec_bytes()) == Seq::new(len as nat, |i: int| 0u8),
            final(st).arenas.allocs.len() == old(st).arenas.allocs.len() + 1,
            forall|j: int| 0 <= j < old(st).arenas.allocs.len()
                ==> #[trigger] final(st).arenas.allocs[j] == old(st).arenas.allocs[j],
            final(st).arenas.allocs[old(st).arenas.allocs.len() as int].arena
                == self.allocator.spec_id(),
            final(st).arenas.allocs[old(st).arenas.allocs.len() as int].bytes@ == Seq::new(
                (len + 4) as nat,
                |i: int| 0u8,
            ),
            final(st).arenas.cells == old(st).arenas.cells,
            final(st).eq_except_arenas(*old(st)),
    {
        let _backing = self.allocator.allocate(st, len + 4);
        make_zeroed_bytea(len)
    }

    /// Opens the call's one allowed connection to the query machinery.
    pub fn connect_spi(&mut self) -> (c: crate::spi::SpiContext)
        requires
            !old(self).has_spi,
        ensures
            final(self).fcinfo == old(self).fcinfo,
            final(self).allocator == old(self).allocator,
            final(self).has_spi,
    {
        self.has_spi = true;
        crate::spi::SpiContext::create()
    }
}

} // verus!
