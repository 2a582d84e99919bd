use pgbridge::catalog::{get_type_name, Type, TypeCache, TypeEntry};
use pgbridge::magic::{Pg_magic_func, PG_MAGIC_STRUCT_LEN};
use pgbridge::types::{bytea, text, FromDatum, IntoDatum, Oid, StaticallyTyped};
use pgbridge::varlena::{Toasted, Varlena};
use pgbridge::Datum;

#[test]
fn datum_round_trips_its_raw_value() {
    let d = Datum::create(12345);
    assert_eq!(d.value(), 12345);
    let d2 = Datum::create(12345);
    assert_eq!(d, d2);
}

#[test]
fn static_oids_match_the_catalog() {
    assert_eq!(<bool as StaticallyTyped>::type_oid(), Oid(16));
    assert_eq!(<bytea as StaticallyTyped>::type_oid(), Oid(17));
    assert_eq!(<i64 as StaticallyTyped>::type_oid(), Oid(20));
    assert_eq!(<i16 as StaticallyTyped>::type_oid(), Oid(21));
    assert_eq!(<i32 as StaticallyTyped>::type_oid(), Oid(23));
    assert_eq!(<text as StaticallyTyped>::type_oid(), Oid(25));
    assert_eq!(<Oid as StaticallyTyped>::type_oid(), Oid(26));
    assert_eq!(<() as StaticallyTyped>::type_oid(), Oid(2278));
}

#[test]
fn datum_conversions_round_trip() {
    let d = 42i32.into_datum();
    assert_eq!(<i32 as FromDatum>::from(d), 42);
    let d = (-7i64).into_datum();
    assert_eq!(<i64 as FromDatum>::from(d), -7);
    let d = Oid(1337).into_datum();
    assert_eq!(<Oid as FromDatum>::from(d), Oid(1337));
    assert_eq!(().into_datum().value(), 0);
}

#[test]
fn one_byte_header_content() {
    // total size 3 = header byte + two payload bytes
    let raw = vec![(3u8 << 1) | 1, b'h', b'i'];
    let t = text::from_bytes(raw);
    assert_eq!(t.to_str(6), Some(b"hi".to_vec()));
}

#[test]
fn four_byte_header_content() {
    // total size 7 = four header bytes + three payload bytes
    let mut raw = vec![7u8 << 2, 0, 0, 0];
    raw.extend_from_slice(b"abc");
    let b = bytea::from_bytes(raw);
    assert_eq!(b.content(), b"abc".to_vec());
}

#[test]
fn write_byte_updates_the_payload() {
    let mut raw = vec![6u8 << 2, 0, 0, 0];
    raw.extend_from_slice(&[10, 20]);
    let mut b = bytea::from_bytes(raw);
    b.write_byte(1, 99);
    assert_eq!(b.content(), vec![10, 99]);
}

#[test]
fn text_encoding_rules() {
    let raw = vec![(3u8 << 1) | 1, 0xC3, 0xA9];
    let t = text::from_bytes(raw);
    // trusted as already in the database encoding
    assert_eq!(t.to_str(6), Some(vec![0xC3, 0xA9]));
    // the plain encoding validates: a well-formed two-byte character passes
    assert_eq!(t.to_str(0), Some(vec![0xC3, 0xA9]));
    // an unknown encoding is never readable directly
    assert_eq!(t.to_str(4), None);
    let ascii = text::from_bytes(vec![(3u8 << 1) | 1, b'o', b'k']);
    assert_eq!(ascii.to_str(0), Some(b"ok".to_vec()));
}

#[test]
fn plain_encoding_rejects_ill_formed_bytes() {
    let cases: &[&[u8]] = &[
        &[0xFF],
        &[0xC3],
        &[0xC0, 0x80],
        &[0xED, 0xA0, 0x80],
        &[0xF5, 0x80, 0x80, 0x80],
        &[0xE2, 0x82],
    ];
    for bytes in cases {
        let mut raw = vec![((bytes.len() as u8 + 1) << 1) | 1];
        raw.extend_from_slice(bytes);
        let t = text::from_bytes(raw);
        assert_eq!(t.to_str(0), None);
    }
    // a four-byte character is well-formed
    let mut raw = vec![(5u8 << 1) | 1];
    raw.extend_from_slice(&[0xF0, 0x9F, 0x92, 0xA9]);
    let t = text::from_bytes(raw);
    assert_eq!(t.to_str(0), Some(vec![0xF0, 0x9F, 0x92, 0xA9]));
}

#[test]
fn text_conversion_borrows_or_takes_the_copy() {
    let t = text::from_bytes(vec![(3u8 << 1) | 1, b'h', b'i']);
    assert_eq!(t.to_string(None), Ok(b"hi".to_vec()));
    assert_eq!(
        t.to_string(Some(b"HI".to_vec())),
        Err(b"HI".to_vec())
    );
}

#[test]
fn toasted_inline_values_detoast_without_the_host() {
    let raw = vec![(2u8 << 1) | 1, 0x55];
    let b = bytea::from_bytes(raw);
    let toasted = Toasted::from_varlena(&b);
    let back = toasted.to_varlena().expect("inline form");
    assert_eq!(back.raw_bytes(), b.raw_bytes());
    let again = toasted.detoast_packed();
    assert_eq!(again.raw_bytes(), b.raw_bytes());
}

#[test]
fn toasted_out_of_line_values_need_the_host() {
    let toasted: Toasted<bytea> = Toasted::from_raw_bytes(vec![0x01, 9, 9, 9, 9]);
    assert!(toasted.to_varlena().is_none());
}

#[test]
fn type_lookup_finds_the_first_match() {
    let cache = TypeCache {
        entries: vec![
            TypeEntry { oid: Oid(23), name: b"int4".to_vec() },
            TypeEntry { oid: Oid(25), name: b"text".to_vec() },
            TypeEntry { oid: Oid(23), name: b"shadowed".to_vec() },
        ],
    };
    let t = Type::new(&cache, Oid(23)).expect("known type");
    assert_eq!(t.name(), &b"int4".to_vec());
    assert_eq!(get_type_name(&cache, Oid(25)), Some(b"text".to_vec()));
    assert_eq!(get_type_name(&cache, Oid(999)), None);
}

#[test]
fn magic_record_carries_the_build_limits() {
    let m = Pg_magic_func();
    assert_eq!(m.len, PG_MAGIC_STRUCT_LEN);
    assert_eq!(m.version, 100000);
    assert_eq!(m.funcmaxargs, 100);
    assert_eq!(m.indexmaxkeys, 32);
    assert_eq!(m.namedatalen, 64);
    assert_eq!(m.float4byval, 1);
    assert_eq!(m.float8byval, 1);
}
