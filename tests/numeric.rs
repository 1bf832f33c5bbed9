use concurrent::numeric::add_with_overflow;
use concurrent::numeric::bswap;
use concurrent::numeric::mul_with_overflow;
use concurrent::numeric::sub_with_overflow;
use concurrent::numeric::to_be;
use concurrent::numeric::to_le;

#[test]
fn add_reports_overflow() {
    assert_eq!(add_with_overflow(2, 3), (5, false));
    assert_eq!(add_with_overflow(i64::MAX, 1), (i64::MIN, true));
    assert_eq!(add_with_overflow(i64::MIN, -1), (i64::MAX, true));
    assert_eq!(add_with_overflow(-4, 4), (0, false));
}

#[test]
fn sub_reports_overflow() {
    assert_eq!(sub_with_overflow(2, 3), (-1, false));
    assert_eq!(sub_with_overflow(i64::MIN, 1), (i64::MAX, true));
    assert_eq!(sub_with_overflow(0, i64::MIN), (i64::MIN, true));
}

#[test]
fn mul_reports_overflow() {
    assert_eq!(mul_with_overflow(6, -7), (-42, false));
    assert_eq!(mul_with_overflow(i64::MAX, 2), (-2, true));
    assert_eq!(mul_with_overflow(i64::MIN, -1), (i64::MIN, true));
    assert_eq!(mul_with_overflow(1 << 32, 1 << 31), (1 << 63, true));
}

#[test]
fn bswap_reverses_bytes() {
    assert_eq!(bswap(0x0102030405060708), 0x0807060504030201);
    assert_eq!(bswap(0), 0);
    assert_eq!(bswap(0xff), 0xff00000000000000);
    assert_eq!(bswap(bswap(0xdeadbeef)), 0xdeadbeef);
}

#[test]
fn byte_order_conversions() {
    let x = 0x1122334455667788u64;
    assert_eq!(to_be(x), x.to_be());
    assert_eq!(to_le(x), x.to_le());
    assert_eq!(u64::from_ne_bytes(to_be(x).to_ne_bytes()), u64::from_be_bytes(x.to_be_bytes()).to_be());
    assert_eq!(to_be(x).to_ne_bytes(), x.to_be_bytes());
    assert_eq!(to_le(x).to_ne_bytes(), x.to_le_bytes());
}
