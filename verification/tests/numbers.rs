use pcapmerge::num::format_positions;
use pcapmerge::num::parse_positions;
use pcapmerge::num::parse_u64;
use pcapmerge::num::u64_to_dec;

#[test]
fn renders_decimal() {
    assert_eq!(u64_to_dec(0), b"0".to_vec());
    assert_eq!(u64_to_dec(7), b"7".to_vec());
    assert_eq!(u64_to_dec(100), b"100".to_vec());
    assert_eq!(u64_to_dec(u64::MAX), b"18446744073709551615".to_vec());
}

#[test]
fn parses_decimal() {
    assert_eq!(parse_u64(&b"123".to_vec()), Some(123));
    assert_eq!(parse_u64(&b"0".to_vec()), Some(0));
    assert_eq!(parse_u64(&b"18446744073709551615".to_vec()), Some(u64::MAX));
}

#[test]
fn rejects_empty_and_junk() {
    assert_eq!(parse_u64(&Vec::new()), None);
    assert_eq!(parse_u64(&b"12a".to_vec()), None);
    assert_eq!(parse_u64(&b"-5".to_vec()), None);
}

#[test]
fn rejects_overflow() {
    assert_eq!(parse_u64(&b"18446744073709551616".to_vec()), None);
    assert_eq!(parse_u64(&b"99999999999999999999999".to_vec()), None);
}

#[test]
fn parses_offset_lists() {
    assert_eq!(parse_positions(&b"5,9".to_vec()), Some(vec![5, 9]));
    assert_eq!(parse_positions(&b"7".to_vec()), Some(vec![7]));
    assert_eq!(parse_positions(&b"0,1,2,3".to_vec()), Some(vec![0, 1, 2, 3]));
}

#[test]
fn rejects_bad_offset_lists() {
    assert_eq!(parse_positions(&Vec::new()), None);
    assert_eq!(parse_positions(&b"1,,2".to_vec()), None);
    assert_eq!(parse_positions(&b"1,x".to_vec()), None);
    assert_eq!(parse_positions(&b"1,".to_vec()), None);
}

#[test]
fn formats_offset_lists() {
    assert_eq!(format_positions(&vec![5, 9]), b"5,9".to_vec());
    assert_eq!(format_positions(&vec![7]), b"7".to_vec());
    assert_eq!(format_positions(&Vec::new()), Vec::<u8>::new());
}

#[test]
fn offsets_round_trip() {
    let rendered = format_positions(&vec![1, 22, 333]);
    assert_eq!(parse_positions(&rendered), Some(vec![1, 22, 333]));
}
