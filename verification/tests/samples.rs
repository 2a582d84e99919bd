use pgbridge::samples::{bitadd_count, demo, parse_int4, ptext, rbitand_count, rbitset_add, spass, voidfun};
use pgbridge::types::{bytea, text};
use pgbridge::varlena::{encode_varlena, Varlena};

fn bytea_of(content: &[u8]) -> bytea {
    bytea::from_bytes(encode_varlena(content.to_vec()))
}

fn text_of(content: &[u8]) -> text {
    text::from_bytes(encode_varlena(content.to_vec()))
}

#[test]
fn adding_two_present_integers() {
    assert_eq!(bitadd_count(Some(2), Some(3)), Some(5));
    assert_eq!(bitadd_count(None, Some(3)), None);
    assert_eq!(bitadd_count(Some(2), None), None);
}

#[test]
fn appending_the_marker_byte() {
    let out = voidfun(&bytea_of(&[1, 2]));
    assert_eq!(out.content(), vec![1, 2, 42]);
    let empty = voidfun(&bytea_of(&[]));
    assert_eq!(empty.content(), vec![42]);
}

#[test]
fn setting_bits_grows_the_set_as_needed() {
    let out = rbitset_add(&bytea_of(&[]), 3).expect("non-negative bit");
    assert_eq!(out.content(), vec![0b1000]);
    let out = rbitset_add(&bytea_of(&[0xF0]), 1).expect("non-negative bit");
    assert_eq!(out.content(), vec![0xF2]);
    let out = rbitset_add(&bytea_of(&[0xF0]), 10).expect("non-negative bit");
    assert_eq!(out.content(), vec![0xF0, 0b100]);
    assert!(rbitset_add(&bytea_of(&[1]), -1).is_none());
}

#[test]
fn summing_bytes_with_the_offset() {
    assert_eq!(demo(&bytea_of(&[1, 2, 3]), 4), 52);
    assert_eq!(demo(&bytea_of(&[]), 0), 42);
    assert_eq!(demo(&bytea_of(&[255]), -42), 255);
}

#[test]
fn counting_shared_bits_over_the_overlap() {
    // 0b1100 & 0b1010 has one shared bit; the trailing byte is beyond the
    // overlap and does not count
    let a = bytea_of(&[0b1100, 0xFF]);
    let b = bytea_of(&[0b1010]);
    assert_eq!(rbitand_count(&a, &b), 1);
    assert_eq!(rbitand_count(&b, &a), 1);
    assert_eq!(rbitand_count(&bytea_of(&[0xFF]), &bytea_of(&[0xFF])), 8);
    assert_eq!(rbitand_count(&bytea_of(&[]), &bytea_of(&[0xFF])), 0);
}

#[test]
fn parsing_decimal_integers_exactly() {
    assert_eq!(parse_int4(&b"42".to_vec()), Some(42));
    assert_eq!(parse_int4(&b"-7".to_vec()), Some(-7));
    assert_eq!(parse_int4(&b"+13".to_vec()), Some(13));
    assert_eq!(parse_int4(&b"0".to_vec()), Some(0));
    assert_eq!(parse_int4(&b"2147483647".to_vec()), Some(i32::MAX));
    assert_eq!(parse_int4(&b"-2147483648".to_vec()), Some(i32::MIN));
    assert_eq!(parse_int4(&b"2147483648".to_vec()), None);
    assert_eq!(parse_int4(&b"-2147483649".to_vec()), None);
    assert_eq!(parse_int4(&b"".to_vec()), None);
    assert_eq!(parse_int4(&b"-".to_vec()), None);
    assert_eq!(parse_int4(&b"12a".to_vec()), None);
    assert_eq!(parse_int4(&b"abc".to_vec()), None);
}

#[test]
fn adding_two_parsed_texts() {
    let a = text_of(b"12");
    let b = text_of(b"30");
    assert_eq!(ptext(&a, &b, 6), Some(42));
    // the plain encoding validates and then parses just the same
    assert_eq!(ptext(&a, &b, 0), Some(42));
    let bad = text_of(b"twelve");
    assert_eq!(ptext(&a, &bad, 6), None);
    let ill_formed = text_of(&[0xFF]);
    assert_eq!(ptext(&a, &ill_formed, 0), None);
}

#[test]
fn passthrough_keeps_the_value() {
    let v = bytea_of(&[9, 9]);
    let raw = v.raw_bytes().clone();
    assert_eq!(spass(v).raw_bytes(), &raw);
}
