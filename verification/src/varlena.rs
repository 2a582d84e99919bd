//! Model of the host's variable-length datum format.
//!
//! A varlena value is a byte buffer whose first byte decides the header form
//! (this model fixes the little-endian layout):
//!
//! - low bit set, but not exactly `0x01`: a one-byte header; the upper seven
//!   bits give the total size, header byte included;
//! - exactly `0x01`: a reference to out-of-line ("toasted") storage;
//! - low two bits `00`: a four-byte header; the 32-bit little-endian word,
//!   shifted right by two, gives the total size, header included;
//! - low two bits `10`: a four-byte header over compressed data.

use vstd::prelude::*;

use core::marker::PhantomData;

verus! {

/// The raw bytes of a varlena value, header included.
pub struct BaseVarlena {
    pub bytes: Vec<u8>,
}

impl View for BaseVarlena {
    type V = Seq<u8>;

    open spec fn view(&self) -> Seq<u8> {
        self.bytes@
    }
}

/// A type whose values are varlena buffers.
pub trait Varlena: Sized {
    /// The raw bytes of this value, header included.
    spec fn spec_bytes(&self) -> Seq<u8>;

    /// Reinterprets a raw buffer as a value of this type.
    fn from_bytes(b: Vec<u8>) -> (r: Self)
        ensures
            r.spec_bytes() == b@,
    ;

    /// The raw buffer of this value.
    fn raw_bytes(&self) -> (r: &Vec<u8>)
        ensures
            r@ == self.spec_bytes(),
    ;
}

/// The 32-bit little-endian word at the start of a buffer.
pub open spec fn le32(b: Seq<u8>) -> u32 {
    (b[0] as u32) | ((b[1] as u32) << 8) | ((b[2] as u32) << 16) | ((b[3] as u32) << 24)
}

/// A one-byte header (and not the out-of-line tag).
pub open spec fn is_header_1b(b: Seq<u8>) -> bool {
    b.len() >= 1 && (b[0] & 0x01) == 1 && b[0] != 0x01
}

/// The out-of-line ("toasted") tag byte.
pub open spec fn is_header_external(b: Seq<u8>) -> bool {
    b.len() >= 1 && b[0] == 0x01
}

/// A four-byte header over plain data.
pub open spec fn is_header_4b_u(b: Seq<u8>) -> bool {
    b.len() >= 4 && (b[0] & 0x03) == 0x00
}

/// A four-byte header over compressed data.
pub open spec fn is_header_4b_c(b: Seq<u8>) -> bool {
    b.len() >= 4 && (b[0] & 0x03) == 0x02
}

/// Total size recorded in a one-byte header, header included.
pub open spec fn size_1b(b: Seq<u8>) -> nat {
    (b[0] >> 1) as nat
}

/// Total size recorded in a four-byte header, header included.
pub open spec fn size_4b(b: Seq<u8>) -> nat {
    (le32(b) >> 2) as nat
}

/// A well-formed inline varlena buffer: one of the two inline header forms,
/// with the recorded total size equal to the buffer's length.
pub open spec fn varlena_wf(b: Seq<u8>) -> bool {
    ||| (is_header_1b(b) && size_1b(b) == b.len())
    ||| (is_header_4b_u(b) && size_4b(b) == b.len())
}

/// The payload of a well-formed inline varlena buffer: everything after the
/// header.
pub open spec fn varlena_content(b: Seq<u8>) -> Seq<u8> {
    if is_header_1b(b) {
        b.subrange(1, b.len() as int)
    } else {
        b.subrange(4, b.len() as int)
    }
}

/// The header forms a varlena buffer can carry.
enum Header {
    External,
    Small(u8),
    Large(u32),
    LargeCompressed(u32),
}

/// Classifies the header of a varlena buffer (little-endian layout).
fn header(b: &Vec<u8>) -> (h: Header)
    requires
        b@.len() >= 1,
        ((b@[0] & 0x03) == 0x00 || (b@[0] & 0x03) == 0x02) ==> b@.len() >= 4,
    ensures
        h matches Header::Small(n) ==> is_header_1b(b@) && n == b@[0] >> 1,
        h matches Header::Large(n) ==> is_header_4b_u(b@) && n == le32(b@) >> 2,
        h matches Header::LargeCompressed(n) ==> is_header_4b_c(b@) && n == le32(b@) >> 2,
        h is External ==> is_header_external(b@),
        is_header_1b(b@) ==> h is Small,
        is_header_external(b@) ==> h is External,
        is_header_4b_u(b@) ==> h is Large,
        is_header_4b_c(b@) ==> h is LargeCompressed,
{
    let first = b[0];
    let tag = first & 0x03;
    proof {
        assert(((first & 0x03) == 0x00 ==> (first & 0x01) != 1) && ((first & 0x03) == 0x02 ==> (
        first & 0x01) != 1 && first != 0x01) && (first == 0x01 ==> (first & 0x03) == 0x01) && ((
        first & 0x03) != 0x00 && (first & 0x03) != 0x02 && first != 0x01 ==> (first & 0x01) == 1))
            by (bit_vector);
    }
    if tag == 0x00 || tag == 0x02 {
        let word = (b[0] as u32) | ((b[1] as u32) << 8) | ((b[2] as u32) << 16) | ((b[3]
            as u32) << 24);
        if tag == 0x00 {
            Header::Large(word >> 2)
        } else {
            Header::LargeCompressed(word >> 2)
        }
    } else if first == 0x01 {
        Header::External
    } else {
        Header::Small(first >> 1)
    }
}

/// Copies the payload out of a well-formed inline varlena buffer.
pub fn inline_content(b: &Vec<u8>) -> (r: Vec<u8>)
    requires
        varlena_wf(b@),
    ensures
        r@ == varlena_content(b@),
{
    let skip: usize = if (b[0] & 0x01) == 1 {
        1
    } else {
        4
    };
    proof {
        let first = b@[0];
        assert((first & 0x01) == 1 ==> (first & 0x03) != 0x00) by (bit_vector);
        assert((first & 0x03) == 0x00 ==> (first & 0x01) != 1) by (bit_vector);
    }
    let mut r: Vec<u8> = Vec::new();
    let mut i: usize = skip;
    while i < b.len()
        invariant
            skip <= i <= b.len(),
            r@ == b@.subrange(skip as int, i as int),
        decreases b.len() - i,
    {
        r.push(b[i]);
        proof {
            assert(r@ =~= b@.subrange(skip as int, (i + 1) as int));
        }
        i = i + 1;
    }
    r
}

/// A possibly-toasted reference to a varlena value of type `T`: the raw datum
/// bytes, before any detoasting.
pub struct Toasted<T: Varlena> {
    bytes: Vec<u8>,
    marker: PhantomData<T>,
}

impl<T: Varlena> Toasted<T> {
    /// The raw datum bytes this reference carries.
    pub closed spec fn spec_bytes(self) -> Seq<u8> {
        self.bytes@
    }

    /// Wraps an already-inline value.
    pub fn from_varlena(v: &T) -> (t: Toasted<T>)
        ensures
            t.spec_bytes() == v.spec_bytes(),
    {
        Toasted { bytes: copy_bytes(v.raw_bytes()), marker: PhantomData }
    }

    /// Wraps raw datum bytes.
    pub fn from_raw_bytes(b: Vec<u8>) -> (t: Toasted<T>)
        ensures
            t.spec_bytes() == b@,
    {
        Toasted { bytes: b, marker: PhantomData }
    }

    /// The value itself, if it is stored inline; `None` for out-of-line or
    /// compressed forms, which only the host can expand.
    pub fn to_varlena(&self) -> (r: Option<T>)
        requires
            self.spec_bytes().len() >= 1,
            ((self.spec_bytes()[0] & 0x03) == 0x00 || (self.spec_bytes()[0] & 0x03) == 0x02)
                ==> self.spec_bytes().len() >= 4,
        ensures
            r matches Some(v) ==> v.spec_bytes() == self.spec_bytes() && (is_header_1b(
                self.spec_bytes(),
            ) || is_header_4b_u(self.spec_bytes())),
            r is None ==> !(is_header_1b(self.spec_bytes()) || is_header_4b_u(self.spec_bytes())),
    {
        match header(&self.bytes) {
            Header::Small(_) => Some(T::from_bytes(copy_bytes(&self.bytes))),
            Header::Large(_) => Some(T::from_bytes(copy_bytes(&self.bytes))),
            _ => None,
        }
    }

    /// A detoasted copy.  In the host this expands out-of-line and compressed
    /// forms too; the model covers the inline forms, which need no host work.
    pub fn copy_detoast(&self) -> (r: T)
        requires
            is_header_1b(self.spec_bytes()) || is_header_4b_u(self.spec_bytes()),
        ensures
            r.spec_bytes() == self.spec_bytes(),
    {
        proof {
            let first = self.spec_bytes()[0];
            assert((first & 0x01) == 1 ==> (first & 0x03) != 0x00 && (first & 0x03) != 0x02)
                by (bit_vector);
        }
        let r = self.to_varlena();
        r.unwrap()
    }

    /// The value, detoasted only if necessary.
    pub fn detoast_packed(&self) -> (r: T)
        requires
            is_header_1b(self.spec_bytes()) || is_header_4b_u(self.spec_bytes()),
        ensures
            r.spec_bytes() == self.spec_bytes(),
    {
        proof {
            let first = self.spec_bytes()[0];
            assert((first & 0x01) == 1 ==> (first & 0x03) != 0x00 && (first & 0x03) != 0x02)
                by (bit_vector);
        }
        match self.to_varlena() {
            Some(v) => v,
            None => self.copy_detoast(),
        }
    }
}

/// Any 32-bit word shifted right by two fits under a gigabyte.
proof fn lemma_shr2_bound(w: u32)
    ensures
        (w >> 2) < 0x4000_0000,
{
    assert((w >> 2) < 0x4000_0000u32) by (bit_vector);
}

/// The payload of a well-formed inline buffer leaves room under the host's
/// one-gigabyte varlena limit.
pub proof fn lemma_varlena_content_len(b: Seq<u8>)
    requires
        varlena_wf(b),
    ensures
        varlena_content(b).len() + 5 <= 0x4000_0000,
{
    let x: u8 = b[0];
    // the two inline header forms are mutually exclusive, and a one-byte
    // header bounds the size by its seven bits
    assert((x >> 1) < 128 && !((x & 0x01) == 1 && (x & 0x03) == 0)) by (bit_vector);
    if !is_header_1b(b) {
        lemma_shr2_bound(le32(b));
    }
}

/// Wraps a payload into a four-byte-header varlena buffer.
pub fn encode_varlena(content: Vec<u8>) -> (r: Vec<u8>)
    requires
        content@.len() + 4 < 0x4000_0000,
    ensures
        varlena_wf(r@),
        is_header_4b_u(r@),
        r@.len() == content@.len() + 4,
        varlena_content(r@) == content@,
{
    let total: u32 = (content.len() + 4) as u32;
    let word: u32 = total << 2u32;
    let b0: u8 = (word & 0xFF) as u8;
    let b1: u8 = ((word >> 8u32) & 0xFF) as u8;
    let b2: u8 = ((word >> 16u32) & 0xFF) as u8;
    let b3: u8 = ((word >> 24u32) & 0xFF) as u8;
    let mut bytes: Vec<u8> = Vec::new();
    bytes.push(b0);
    bytes.push(b1);
    bytes.push(b2);
    bytes.push(b3);
    let n = content.len();
    let mut i: usize = 0;
    while i < n
        invariant
            i <= n,
            n == content.len(),
            bytes.len() == i + 4,
            bytes@[0] == b0 && bytes@[1] == b1 && bytes@[2] == b2 && bytes@[3] == b3,
            forall|j: int| 4 <= j < bytes.len() ==> bytes@[j] == content@[j - 4],
        decreases n - i,
    {
        bytes.push(content[i]);
        i = i + 1;
    }
    proof {
        assert(total == word >> 2 && (((word & 0xFF) as u8) & 0x03) == 0 && (((word & 0xFF) as u8)
            & 0x01) != 1 && ((word & 0xFF) as u8 as u32) | ((((word >> 8) & 0xFF) as u8 as u32)
            << 8) | ((((word >> 16) & 0xFF) as u8 as u32) << 16) | ((((word >> 24) & 0xFF) as u8
            as u32) << 24) == word) by (bit_vector)
            requires
                word == total << 2,
                total < 0x4000_0000u32,
        ;
        assert(le32(bytes@) == word);
        assert(!is_header_1b(bytes@));
        assert(varlena_content(bytes@) =~= content@);
    }
    bytes
}

/// A by-value copy of a byte buffer.
pub fn copy_bytes(v: &Vec<u8>) -> (r: Vec<u8>)
    ensures
        r@ == v@,
{
    let mut r: Vec<u8> = Vec::new();
    let mut i: usize = 0;
    while i < v.len()
        invariant
            i <= v.len(),
            r@ == v@.subrange(0, i as int),
        decreases v.len() - i,
    {
        r.push(v[i]);
        proof {
            assert(r@ =~= v@.subrange(0, (i + 1) as int));
        }
        i = i + 1;
    }
    proof {
        assert(v@.subrange(0, v.len() as int) =~= v@);
    }
    r
}

} // verus!
