//! The module-magic record a loadable module presents to the host, so the
//! host can check that the module was built against compatible limits.

use vstd::prelude::*;

use crate::{FLOAT4_BYVAL, FLOAT8_BYVAL, FUNC_MAX_ARGS, INDEX_MAX_KEYS, NAMEDATALEN, PG_VERSION};

verus! {

/// The size of the magic record: seven 32-bit fields.
pub const PG_MAGIC_STRUCT_LEN: i32 = 28;

/// The record the host inspects at module load.
#[derive(Clone, Copy, Debug, PartialEq, Eq, Structural)]
pub struct Pg_magic_struct {
    pub len: i32,
    pub version: i32,
    pub funcmaxargs: i32,
    pub indexmaxkeys: i32,
    pub namedatalen: i32,
    pub float4byval: i32,
    pub float8byval: i32,
}

/// The magic record for this build's limits.
#[allow(non_snake_case)]
pub fn Pg_magic_func() -> (m: Pg_magic_struct)
    ensures
        m.len == PG_MAGIC_STRUCT_LEN,
        m.version == PG_VERSION,
        m.funcmaxargs == FUNC_MAX_ARGS,
        m.indexmaxkeys == INDEX_MAX_KEYS,
        m.namedatalen == NAMEDATALEN,
        m.float4byval == (if FLOAT4_BYVAL {
            1int
        } else {
            0int
        }),
        m.float8byval == (if FLOAT8_BYVAL {
            1int
        } else {
            0int
        }),
{
    Pg_magic_struct {
        len: PG_MAGIC_STRUCT_LEN,
        version: PG_VERSION as i32,
        funcmaxargs: FUNC_MAX_ARGS as i32,
        indexmaxkeys: INDEX_MAX_KEYS as i32,
        namedatalen: NAMEDATALEN as i32,
        float4byval: if FLOAT4_BYVAL {
            1
        } else {
            0
        },
        float8byval: if FLOAT8_BYVAL {
            1
        } else {
            0
        },
    }
}

} // verus!
