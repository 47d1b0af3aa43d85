use git_blame::commit_id::CommitId;
use git_blame::decimal::decimal_string;

#[test]
fn decimal_of_zero_is_single_digit() {
    assert_eq!(decimal_string(0), "0");
}

#[test]
fn decimal_of_small_numbers() {
    assert_eq!(decimal_string(7), "7");
    assert_eq!(decimal_string(9), "9");
    assert_eq!(decimal_string(10), "10");
    assert_eq!(decimal_string(42), "42");
    assert_eq!(decimal_string(100), "100");
    assert_eq!(decimal_string(1608839587), "1608839587");
}

#[test]
fn decimal_of_negative_numbers_has_leading_minus() {
    assert_eq!(decimal_string(-1), "-1");
    assert_eq!(decimal_string(-10), "-10");
    assert_eq!(decimal_string(-300), "-300");
    assert_eq!(decimal_string(-720), "-720");
}

#[test]
fn decimal_of_extremes() {
    assert_eq!(decimal_string(i64::MAX), "9223372036854775807");
    assert_eq!(decimal_string(i64::MIN), "-9223372036854775808");
    assert_eq!(decimal_string(i64::MIN + 1), "-9223372036854775807");
}

#[test]
fn decimal_agrees_with_standard_rendering() {
    let mut n: i64 = -2500;
    while n <= 2500 {
        assert_eq!(decimal_string(n), n.to_string());
        n += 1;
    }
    let mut p: i64 = 1;
    let mut k = 0;
    while k < 62 {
        assert_eq!(decimal_string(p), p.to_string());
        assert_eq!(decimal_string(-p), (-p).to_string());
        assert_eq!(decimal_string(p - 1), (p - 1).to_string());
        p *= 2;
        k += 1;
    }
}

#[test]
fn decimal_texts_of_different_numbers_differ() {
    assert_ne!(decimal_string(1), decimal_string(-1));
    assert_ne!(decimal_string(10), decimal_string(1));
    assert_ne!(decimal_string(0), decimal_string(-0 - 1));
}

#[test]
fn hex_of_counting_bytes() {
    let mut bytes = [0u8; 20];
    let mut i = 0;
    while i < 20 {
        bytes[i] = i as u8;
        i += 1;
    }
    let id = CommitId::from_bytes(bytes);
    assert_eq!(id.to_hex(), "000102030405060708090a0b0c0d0e0f10111213");
}

#[test]
fn hex_is_lower_case_and_forty_characters() {
    let id = CommitId::from_bytes([0xff; 20]);
    assert_eq!(id.to_hex(), "ffffffffffffffffffffffffffffffffffffffff");
    assert_eq!(id.to_hex().len(), 40);
    let zero = CommitId::from_bytes([0; 20]);
    assert_eq!(zero.to_hex(), "0000000000000000000000000000000000000000");
}

#[test]
fn hex_puts_high_nibble_first() {
    let mut bytes = [0u8; 20];
    bytes[0] = 0xde;
    bytes[1] = 0xad;
    bytes[2] = 0xbe;
    bytes[3] = 0xef;
    bytes[19] = 0x1a;
    let id = CommitId::from_bytes(bytes);
    assert_eq!(id.to_hex(), "deadbeef0000000000000000000000000000001a");
}

#[test]
fn hex_agrees_with_engine_rendering() {
    let mut bytes = [0u8; 20];
    let mut i = 0;
    while i < 20 {
        bytes[i] = (i * 13 + 7) as u8;
        i += 1;
    }
    let id = CommitId::from_bytes(bytes);
    let oid = git2::Oid::from_bytes(&bytes).unwrap();
    assert_eq!(id.to_hex(), oid.to_string());
    assert_eq!(id.to_hex(), format!("{:?}", oid));
}

#[test]
fn same_as_compares_all_bytes() {
    let a = CommitId::from_bytes([3; 20]);
    let b = CommitId::from_bytes([3; 20]);
    let mut other = [3u8; 20];
    other[19] = 4;
    let c = CommitId::from_bytes(other);
    let mut first = [3u8; 20];
    first[0] = 0;
    let d = CommitId::from_bytes(first);
    assert!(a.same_as(&b));
    assert!(!a.same_as(&c));
    assert!(!a.same_as(&d));
    assert!(c.same_as(&c));
}
