use libvirtdma::vm::mlayout::{parse_decimal, parse_u64, parse_u64_bytes, to_hex};
use libvirtdma::{RemotePtr, TypedRemotePtr};

#[test]
fn main_test_parse_u64() {
    // LE flag is invariant over decimal input
    assert_eq!(parse_u64("123", false), Some(123));
    assert_eq!(parse_u64("123", true), Some(123));

    // Prefix works as expected in BE mode
    assert_eq!(parse_u64("0x4A", false), Some(74));

    assert_eq!(
        parse_u64("0xCAFEBABEDEADBEEF", false),
        Some(14627333968688430831)
    );
    assert_eq!(
        parse_u64("0x0000000004a3f6e1", false),
        parse_u64("0x4a3f6e1", false),
    );
    assert_eq!(parse_u64("0x0000000004a3f6e1", false), Some(77854433));
}

#[test]
fn mlayout_test_parse_u64() {
    // LE flag is invariant over decimal input
    assert_eq!(parse_u64("123", false), Some(123));
    assert_eq!(parse_u64("123", true), Some(123));

    // Prefix works as expected in BE mode
    assert_eq!(parse_u64("0x4A", false), Some(74));

    assert_eq!(
        parse_u64("0xCAFEBABEDEADBEEF", false),
        Some(14627333968688430831)
    );
    assert_eq!(
        parse_u64("0x0000000004a3f6e1", false),
        parse_u64("0x4a3f6e1", false),
    );
    assert_eq!(parse_u64("0x0000000004a3f6e1", false), Some(77854433));
}

#[test]
fn parse_u64_short_hex_is_padded_in_front() {
    assert_eq!(parse_u64("0x4a3f6e1", false), Some(77854433));
    assert_eq!(parse_u64("0x", false), Some(0));
    assert_eq!(parse_u64("0x0", false), Some(0));
    assert_eq!(parse_u64("0x00", false), Some(0));
    assert_eq!(parse_u64("0xff", false), Some(255));
}

#[test]
fn parse_u64_little_endian_reverses_the_bytes() {
    assert_eq!(parse_u64("0x0102030405060708", false), Some(0x0102030405060708));
    assert_eq!(parse_u64("0x0102030405060708", true), Some(0x0807060504030201));
    assert_eq!(parse_u64("0x4A", true), Some(0x4A00_0000_0000_0000));
}

#[test]
fn parse_u64_long_hex_counts_its_first_sixteen_digits() {
    assert_eq!(parse_u64("0x0102030405060708ffff", false), Some(0x0102030405060708));
    assert_eq!(parse_u64("0x0102030405060708f", false), None);
}

#[test]
fn parse_u64_adds_what_a_plus_joins() {
    assert_eq!(parse_u64("1+2", false), Some(3));
    assert_eq!(parse_u64("0x10+16", false), Some(32));
    assert_eq!(parse_u64("1+2+3", false), Some(6));
    assert_eq!(parse_u64("0x7ff600000000+0x17a6ad8", false), Some(0x7ff600000000 + 0x17a6ad8));
    assert_eq!(parse_u64("+5", false), None);
    assert_eq!(parse_u64("5+", false), None);
    assert_eq!(parse_u64("18446744073709551615+1", false), None);
    assert_eq!(parse_u64("18446744073709551615+0", false), Some(u64::MAX));
}

#[test]
fn parse_u64_rejects_what_is_no_number() {
    assert_eq!(parse_u64("", false), None);
    assert_eq!(parse_u64("12a", false), None);
    assert_eq!(parse_u64("-1", false), None);
    assert_eq!(parse_u64(" 1", false), None);
    assert_eq!(parse_u64("0xzz", false), None);
    assert_eq!(parse_u64("0X10", false), None);
    assert_eq!(parse_u64("18446744073709551616", false), None);
    assert_eq!(parse_u64("18446744073709551615", false), Some(u64::MAX));
    assert_eq!(parse_u64("٣", false), None);
}

#[test]
fn parse_u64_bytes_reads_what_parse_u64_reads() {
    assert_eq!(parse_u64_bytes(b"0xCAFEBABEDEADBEEF", false), Some(14627333968688430831));
    assert_eq!(parse_u64_bytes(b"42", true), Some(42));
    assert_eq!(parse_decimal(b"0042"), Some(42));
    assert_eq!(parse_decimal(b""), None);
}

#[test]
fn to_hex_writes_sixteen_digits() {
    assert_eq!(to_hex(0), "0000000000000000");
    assert_eq!(to_hex(0xCAFEBABEDEADBEEF), "cafebabedeadbeef");
    assert_eq!(to_hex(77854433), "0000000004a3f6e1");
    assert_eq!(to_hex(u64::MAX), "ffffffffffffffff");
}

#[test]
fn hex_of_a_parsed_number_is_the_text_that_was_parsed() {
    for s in ["0000000000000000", "cafebabedeadbeef", "0000000004a3f6e1", "0123456789abcdef", "ffffffffffffffff"] {
        let text = format!("0x{}", s);
        assert_eq!(to_hex(parse_u64(&text, false).unwrap()), s);
    }
}

#[test]
fn remote_ptr_is_a_number() {
    let p = RemotePtr::new(0x1000);
    assert_eq!(p.addr(), 0x1000);
    assert_eq!(p.with_offset(0x10).addr(), 0x1010);
    assert_eq!(p.with_offset(-0x10).addr(), 0xff0);
    assert_eq!(p.with_offset(-0x1001).addr(), u64::MAX);
    assert_eq!(RemotePtr::new(u64::MAX).with_offset(1).addr(), 0);
    assert_eq!(p.print(), "0x0000000000001000");
    let copy = p;
    assert_eq!(copy.addr(), p.addr());
}

#[test]
fn typed_remote_ptr_is_a_number() {
    let p: TypedRemotePtr<u32> = TypedRemotePtr::new(0xdead_beef);
    assert_eq!(p.addr(), 0xdead_beef);
    assert_eq!(p.print(), "0x00000000deadbeef");
    let q = p.clone();
    assert_eq!(q.addr(), 0xdead_beef);
}
