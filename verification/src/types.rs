//! The host's built-in value types, their catalog identifiers, and the
//! conversions between them and the datum word.

use vstd::prelude::*;

use crate::varlena::{BaseVarlena, Varlena};
use crate::Datum;

verus! {

/// A catalog object identifier.
#[derive(Clone, Copy, Debug, PartialEq, Eq, Structural)]
pub struct Oid(pub u32);

pub type oid = Oid;

pub type int2 = i16;

pub type int4 = i32;

pub type int8 = i64;

pub type void = ();

/// Database encodings the text conversions understand.
pub const PG_ENCODING_SQL_ASCII: i32 = 0;

pub const PG_ENCODING_UTF8: i32 = 6;

/// A continuation byte of a multi-byte character.
pub open spec fn utf8_cont(b: u8) -> bool {
    0x80 <= b <= 0xBF
}

/// Whether a byte sequence is well-formed character data: each head byte
/// starts a sequence of the right length, continuation bytes stay in range,
/// and the surrogate and out-of-range head forms are excluded.
pub open spec fn is_utf8(s: Seq<u8>) -> bool
    decreases s.len(),
{
    if s.len() == 0 {
        true
    } else {
        let b0 = s[0];
        if b0 <= 0x7F {
            is_utf8(s.skip(1))
        } else if 0xC2 <= b0 <= 0xDF {
            s.len() >= 2 && utf8_cont(s[1]) && is_utf8(s.skip(2))
        } else if b0 == 0xE0 {
            s.len() >= 3 && 0xA0 <= s[1] <= 0xBF && utf8_cont(s[2]) && is_utf8(s.skip(3))
        } else if (0xE1 <= b0 <= 0xEC) || b0 == 0xEE || b0 == 0xEF {
            s.len() >= 3 && utf8_cont(s[1]) && utf8_cont(s[2]) && is_utf8(s.skip(3))
        } else if b0 == 0xED {
            s.len() >= 3 && 0x80 <= s[1] <= 0x9F && utf8_cont(s[2]) && is_utf8(s.skip(3))
        } else if b0 == 0xF0 {
            s.len() >= 4 && 0x90 <= s[1] <= 0xBF && utf8_cont(s[2]) && utf8_cont(s[3]) && is_utf8(
                s.skip(4),
            )
        } else if 0xF1 <= b0 <= 0xF3 {
            s.len() >= 4 && utf8_cont(s[1]) && utf8_cont(s[2]) && utf8_cont(s[3]) && is_utf8(
                s.skip(4),
            )
        } else if b0 == 0xF4 {
            s.len() >= 4 && 0x80 <= s[1] <= 0x8F && utf8_cont(s[2]) && utf8_cont(s[3]) && is_utf8(
                s.skip(4),
            )
        } else {
            false
        }
    }
}

/// What reading text content directly yields under a given encoding: under
/// the host's character encoding the bytes are trusted as they stand; under
/// the plain encoding they are validated as character data first; any other
/// encoding needs the host's conversion routine.
pub open spec fn spec_to_str(content: Seq<u8>, encoding: i32) -> Option<Seq<u8>> {
    if encoding == PG_ENCODING_UTF8 {
        Some(content)
    } else if encoding == PG_ENCODING_SQL_ASCII {
        if is_utf8(content) {
            Some(content)
        } else {
            None
        }
    } else {
        None
    }
}

/// Checks a byte buffer for well-formed character data.
pub fn is_valid_utf8(s: &Vec<u8>) -> (r: bool)
    ensures
        r == is_utf8(s@),
{
    let n = s.len();
    proof {
        assert(s@.skip(0) =~= s@);
    }
    let mut i: usize = 0;
    while i < n
        invariant
            i <= n,
            n == s@.len(),
            is_utf8(s@) == is_utf8(s@.skip(i as int)),
        decreases n - i,
    {
        let b0 = s[i];
        let step: usize;
        if b0 <= 0x7F {
            step = 1;
        } else if 0xC2 <= b0 && b0 <= 0xDF {
            if n - i < 2 || !(0x80 <= s[i + 1] && s[i + 1] <= 0xBF) {
                return false;
            }
            step = 2;
        } else if b0 == 0xE0 {
            if n - i < 3 || !(0xA0 <= s[i + 1] && s[i + 1] <= 0xBF) || !(0x80 <= s[i + 2] && s[i
                + 2] <= 0xBF) {
                return false;
            }
            step = 3;
        } else if (0xE1 <= b0 && b0 <= 0xEC) || b0 == 0xEE || b0 == 0xEF {
            if n - i < 3 || !(0x80 <= s[i + 1] && s[i + 1] <= 0xBF) || !(0x80 <= s[i + 2] && s[i
                + 2] <= 0xBF) {
                return false;
            }
            step = 3;
        } else if b0 == 0xED {
            if n - i < 3 || !(0x80 <= s[i + 1] && s[i + 1] <= 0x9F) || !(0x80 <= s[i + 2] && s[i
                + 2] <= 0xBF) {
                return false;
            }
            step = 3;
        } else if b0 == 0xF0 {
            if n - i < 4 || !(0x90 <= s[i + 1] && s[i + 1] <= 0xBF) || !(0x80 <= s[i + 2] && s[i
                + 2] <= 0xBF) || !(0x80 <= s[i + 3] && s[i + 3] <= 0xBF) {
                return false;
            }
            step = 4;
        } else if 0xF1 <= b0 && b0 <= 0xF3 {
            if n - i < 4 || !(0x80 <= s[i + 1] && s[i + 1] <= 0xBF) || !(0x80 <= s[i + 2] && s[i
                + 2] <= 0xBF) || !(0x80 <= s[i + 3] && s[i + 3] <= 0xBF) {
                return false;
            }
            step = 4;
        } else if b0 == 0xF4 {
            if n - i < 4 || !(0x80 <= s[i + 1] && s[i + 1] <= 0x8F) || !(0x80 <= s[i + 2] && s[i
                + 2] <= 0xBF) || !(0x80 <= s[i + 3] && s[i + 3] <= 0xBF) {
                return false;
            }
            step = 4;
        } else {
            return false;
        }
        proof {
            assert(s@.skip(i as int).skip(step as int) =~= s@.skip(i as int + step as int));
        }
        i = i + step;
    }
    proof {
        assert(s@.skip(n as int) =~= Seq::<u8>::empty());
    }
    true
}

/// A variable-length byte string.
pub struct bytea(pub BaseVarlena);

/// A variable-length character string in the database encoding.
pub struct text(pub BaseVarlena);

impl Varlena for bytea {
    open spec fn spec_bytes(&self) -> Seq<u8> {
        self.0.bytes@
    }

    fn from_bytes(b: Vec<u8>) -> (r: Self) {
        bytea(BaseVarlena { bytes: b })
    }

    fn raw_bytes(&self) -> (r: &Vec<u8>) {
        &self.0.bytes
    }
}

impl Varlena for text {
    open spec fn spec_bytes(&self) -> Seq<u8> {
        self.0.bytes@
    }

    fn from_bytes(b: Vec<u8>) -> (r: Self) {
        text(BaseVarlena { bytes: b })
    }

    fn raw_bytes(&self) -> (r: &Vec<u8>) {
        &self.0.bytes
    }
}

impl bytea {
    /// The payload, header stripped.
    pub fn content(&self) -> (r: Vec<u8>)
        requires
            crate::varlena::varlena_wf(self.spec_bytes()),
        ensures
            r@ == crate::varlena::varlena_content(self.spec_bytes()),
    {
        crate::varlena::inline_content(&self.0.bytes)
    }

    /// Overwrites one payload byte.  Only values with a four-byte header may
    /// be written through; the host forbids writing into one-byte-header
    /// values.
    pub fn write_byte(&mut self, i: usize, value: u8)
        requires
            crate::varlena::varlena_wf(old(self).spec_bytes()),
            crate::varlena::is_header_4b_u(old(self).spec_bytes()),
            i + 4 < old(self).spec_bytes().len(),
        ensures
            final(self).spec_bytes() == old(self).spec_bytes().update(i + 4, value),
    {
        self.0.bytes.set(i + 4, value);
    }
}

impl text {
    /// The payload in a requested encoding.  The host's conversion routine
    /// either reports that the bytes are already in that encoding — it hands
    /// the same buffer back, and the payload is borrowed as it stands — or
    /// produces a converted copy, which is what `converted` carries.
    pub fn to_string(&self, converted: Option<Vec<u8>>) -> (r: Result<Vec<u8>, Vec<u8>>)
        requires
            crate::varlena::varlena_wf(self.spec_bytes()),
        ensures
            converted is None ==> (r matches Ok(b) && b@ == crate::varlena::varlena_content(
                self.spec_bytes(),
            )),
            converted matches Some(c) ==> r == Err::<Vec<u8>, Vec<u8>>(c),
    {
        match converted {
            None => Ok(crate::varlena::inline_content(&self.0.bytes)),
            Some(c) => Err(c),
        }
    }

    /// The payload as character data, or `None` when the database encoding
    /// does not let the bytes be read directly: an encoding the model does
    /// not know, or ill-formed character data under the plain encoding
    /// (which, unlike the host's own character encoding, is not trusted).
    pub fn to_str(&self, encoding: i32) -> (r: Option<Vec<u8>>)
        requires
            crate::varlena::varlena_wf(self.spec_bytes()),
        ensures
            (spec_to_str(crate::varlena::varlena_content(self.spec_bytes()), encoding) matches Some(
                c,
            ) ==> (r matches Some(b) && b@ == c)),
            spec_to_str(crate::varlena::varlena_content(self.spec_bytes()), encoding) is None
                ==> r is None,
    {
        if encoding == PG_ENCODING_UTF8 {
            Some(crate::varlena::inline_content(&self.0.bytes))
        } else if encoding == PG_ENCODING_SQL_ASCII {
            let content = crate::varlena::inline_content(&self.0.bytes);
            if is_valid_utf8(&content) {
                Some(content)
            } else {
                None
            }
        } else {
            None
        }
    }
}

/// Reading a value back out of a datum word.  For by-reference types this
/// needs the host's memory, so only by-value types implement it here.
pub trait FromDatum: Sized {
    spec fn spec_from(d: Datum) -> Self;

    fn from(d: Datum) -> (r: Self)
        ensures
            r == Self::spec_from(d),
    ;
}

/// Packing a value into a datum word.
pub trait IntoDatum: Sized {
    spec fn spec_into_datum(self) -> Datum;

    fn into_datum(self) -> (d: Datum)
        ensures
            d == self.spec_into_datum(),
    ;
}

/// A type with a fixed catalog identifier.
pub trait StaticallyTyped {
    spec fn spec_oid() -> Oid;

    fn type_oid() -> (r: Oid)
        ensures
            r == Self::spec_oid(),
    ;
}

impl StaticallyTyped for bool {
    open spec fn spec_oid() -> Oid {
        Oid(16)
    }

    fn type_oid() -> (r: Oid) {
        Oid(16)
    }
}

impl StaticallyTyped for bytea {
    open spec fn spec_oid() -> Oid {
        Oid(17)
    }

    fn type_oid() -> (r: Oid) {
        Oid(17)
    }
}

impl StaticallyTyped for int8 {
    open spec fn spec_oid() -> Oid {
        Oid(20)
    }

    fn type_oid() -> (r: Oid) {
        Oid(20)
    }
}

impl StaticallyTyped for int2 {
    open spec fn spec_oid() -> Oid {
        Oid(21)
    }

    fn type_oid() -> (r: Oid) {
        Oid(21)
    }
}

impl StaticallyTyped for int4 {
    open spec fn spec_oid() -> Oid {
        Oid(23)
    }

    fn type_oid() -> (r: Oid) {
        Oid(23)
    }
}

impl StaticallyTyped for text {
    open spec fn spec_oid() -> Oid {
        Oid(25)
    }

    fn type_oid() -> (r: Oid) {
        Oid(25)
    }
}

impl StaticallyTyped for Oid {
    open spec fn spec_oid() -> Oid {
        Oid(26)
    }

    fn type_oid() -> (r: Oid) {
        Oid(26)
    }
}

impl StaticallyTyped for void {
    open spec fn spec_oid() -> Oid {
        Oid(2278)
    }

    fn type_oid() -> (r: Oid) {
        Oid(2278)
    }
}

impl FromDatum for oid {
    open spec fn spec_from(d: Datum) -> oid {
        Oid(d.spec_value() as u32)
    }

    fn from(d: Datum) -> (r: oid) {
        Oid(#[verifier::truncate] (d.value() as u32))
    }
}

impl FromDatum for int8 {
    open spec fn spec_from(d: Datum) -> int8 {
        d.spec_value() as i64
    }

    fn from(d: Datum) -> (r: int8) {
        #[verifier::truncate] (d.value() as i64)
    }
}

impl FromDatum for int4 {
    open spec fn spec_from(d: Datum) -> int4 {
        d.spec_value() as i32
    }

    fn from(d: Datum) -> (r: int4) {
        #[verifier::truncate] (d.value() as i32)
    }
}

impl FromDatum for void {
    open spec fn spec_from(d: Datum) -> void {
        ()
    }

    fn from(_d: Datum) -> (r: void) {
    }
}

impl IntoDatum for oid {
    open spec fn spec_into_datum(self) -> Datum {
        Datum::spec_new(self.0 as usize)
    }

    fn into_datum(self) -> (d: Datum) {
        Datum::create(self.0 as usize)
    }
}

impl IntoDatum for int8 {
    open spec fn spec_into_datum(self) -> Datum {
        Datum::spec_new(self as usize)
    }

    fn into_datum(self) -> (d: Datum) {
        Datum::create(#[verifier::truncate] (self as usize))
    }
}

impl IntoDatum for int4 {
    open spec fn spec_into_datum(self) -> Datum {
        Datum::spec_new(self as usize)
    }

    fn into_datum(self) -> (d: Datum) {
        Datum::create(#[verifier::truncate] (self as usize))
    }
}

impl IntoDatum for void {
    open spec fn spec_into_datum(self) -> Datum {
        Datum::spec_new(0)
    }

    fn into_datum(self) -> (d: Datum) {
        Datum::create(0)
    }
}

} // verus!
