//! Model of type-catalog lookups.

use vstd::prelude::*;

use crate::types::Oid;
use crate::varlena::copy_bytes;

verus! {

/// One catalog row: a type identifier and the type's name.
pub struct TypeEntry {
    pub oid: Oid,
    pub name: Vec<u8>,
}

/// The host's type catalog cache, as handed over for lookups.
pub struct TypeCache {
    pub entries: Vec<TypeEntry>,
}

/// The name recorded for `oid`: the first matching entry's.
pub open spec fn spec_find_type(entries: Seq<TypeEntry>, oid: Oid) -> Option<Seq<u8>>
    decreases entries.len(),
{
    if entries.len() == 0 {
        None
    } else if entries[0].oid == oid {
        Some(entries[0].name@)
    } else {
        spec_find_type(entries.drop_first(), oid)
    }
}

/// A catalog entry for one type, with its own copy of the name.
pub struct Type {
    pub oid: Oid,
    pub name: Vec<u8>,
}

impl Type {
    /// Looks a type up by identifier.
    pub fn new(cache: &TypeCache, oid: Oid) -> (r: Option<Type>)
        ensures
            r matches Some(t) ==> t.oid == oid && spec_find_type(cache.entries@, oid) == Some(
                t.name@,
            ),
            r is None ==> spec_find_type(cache.entries@, oid) is None,
    {
        let n = cache.entries.len();
        proof {
            assert(cache.entries@.skip(0) =~= cache.entries@);
        }
        let mut i: usize = 0;
        while i < n
            invariant
                i <= n,
                n == cache.entries.len(),
                spec_find_type(cache.entries@, oid) == spec_find_type(
                    cache.entries@.skip(i as int),
                    oid,
                ),
            decreases n - i,
        {
            proof {
                assert(cache.entries@.skip(i as int).drop_first() =~= cache.entries@.skip(
                    i as int + 1,
                ));
                assert(cache.entries@.skip(i as int)[0] == cache.entries@[i as int]);
            }
            if cache.entries[i].oid.0 == oid.0 {
                let t = Type { oid, name: copy_bytes(&cache.entries[i].name) };
                return Some(t);
            }
            i = i + 1;
        }
        proof {
            assert(cache.entries@.skip(n as int) =~= Seq::empty());
        }
        None
    }

    /// The type's name.
    pub fn name(&self) -> (r: &Vec<u8>)
        ensures
            r@ == self.name@,
    {
        &self.name
    }
}

/// The name of the type `oid`, or `None` for an unknown identifier.
pub fn get_type_name(cache: &TypeCache, oid: Oid) -> (r: Option<Vec<u8>>)
    ensures
        r matches Some(name) ==> spec_find_type(cache.entries@, oid) == Some(name@),
        r is None ==> spec_find_type(cache.entries@, oid) is None,
{
    match Type::new(cache, oid) {
        Some(t) => Some(t.name),
        None => None,
    }
}

} // verus!
