use ciborium::{ConvertError, Integer};
use std::cmp::Ordering;
use std::collections::hash_map::DefaultHasher;
use std::hash::{Hash, Hasher};

fn big(v: i128) -> Integer {
    Integer::try_from(v).unwrap()
}

fn hash_of(i: &Integer) -> u64 {
    let mut h = DefaultHasher::new();
    i.hash(&mut h);
    h.finish()
}

fn sample() -> Vec<Integer> {
    let values: Vec<i128> = vec![
        0,
        1,
        23,
        24,
        255,
        256,
        65535,
        65536,
        u32::MAX as i128,
        u32::MAX as i128 + 1,
        u64::MAX as i128,
        -1,
        -2,
        -24,
        -25,
        -128,
        -129,
        -32768,
        -32769,
        i32::MIN as i128,
        i32::MIN as i128 - 1,
        i64::MIN as i128,
        i64::MIN as i128 - 1,
        -(1i128 << 64),
    ];
    values.into_iter().map(big).collect()
}

#[test]
fn equal_across_widths() {
    let a = Integer::from(5u8);
    let b = Integer::from(5i64);
    let c = Integer::from(5usize);
    let d = big(5);
    assert_eq!(a, b);
    assert_eq!(b, c);
    assert_eq!(c, d);
    assert_eq!(a.partial_cmp(&d), Some(Ordering::Equal));
    assert_eq!(a.canonical_cmp(&d), Ordering::Equal);
    assert_eq!(Integer::from(-3i8), Integer::from(-3isize));
    assert_eq!(Integer::from(u64::MAX), big(u64::MAX as i128));
    assert_ne!(Integer::from(255u8), Integer::from(-1i8));
}

#[test]
fn numeric_order_spans_widths() {
    assert!(Integer::from(-1i8) < Integer::from(0u8));
    assert!(Integer::from(u64::MAX) > Integer::from(i64::MAX));
    assert!(big(-(1i128 << 64)) < Integer::from(i64::MIN));
    assert_eq!(Integer::from(200u8).numeric_cmp(&Integer::from(-200i16)), Ordering::Greater);
}

#[test]
fn orders_are_total_over_generated_triples() {
    let s = sample();
    for a in &s {
        assert_eq!(a.canonical_cmp(a), Ordering::Equal);
        for b in &s {
            let ab = a.canonical_cmp(b);
            assert_eq!(ab, b.canonical_cmp(a).reverse());
            assert_eq!(ab == Ordering::Equal, a.as_i128() == b.as_i128());
            assert_eq!(a.numeric_cmp(b), a.as_i128().cmp(&b.as_i128()));
            for c in &s {
                if ab != Ordering::Greater && b.canonical_cmp(c) != Ordering::Greater {
                    assert_ne!(a.canonical_cmp(c), Ordering::Greater);
                }
                if a < b && b < c {
                    assert!(a < c);
                }
            }
        }
    }
}

#[test]
fn round_trip_every_width() {
    assert_eq!(u8::try_from(Integer::from(u8::MAX)).unwrap(), u8::MAX);
    assert_eq!(u16::try_from(Integer::from(u16::MAX)).unwrap(), u16::MAX);
    assert_eq!(u32::try_from(Integer::from(u32::MAX)).unwrap(), u32::MAX);
    assert_eq!(u64::try_from(Integer::from(u64::MAX)).unwrap(), u64::MAX);
    assert_eq!(usize::try_from(Integer::from(usize::MAX)).unwrap(), usize::MAX);
    assert_eq!(i8::try_from(Integer::from(i8::MIN)).unwrap(), i8::MIN);
    assert_eq!(i16::try_from(Integer::from(i16::MIN)).unwrap(), i16::MIN);
    assert_eq!(i32::try_from(Integer::from(i32::MIN)).unwrap(), i32::MIN);
    assert_eq!(i64::try_from(Integer::from(i64::MIN)).unwrap(), i64::MIN);
    assert_eq!(isize::try_from(Integer::from(isize::MIN)).unwrap(), isize::MIN);
    let low = -(1i128 << 64);
    assert_eq!(i128::from(big(low)), low);
    assert_eq!(u128::try_from(Integer::try_from(u64::MAX as u128).unwrap()).unwrap(), u64::MAX as u128);
    assert_eq!(Integer::from_i16(-7).to_i64().unwrap(), -7);
}

#[test]
fn narrowing_out_of_range_fails() {
    assert!(u8::try_from(Integer::from(256u16)).is_err());
    assert!(u8::try_from(Integer::from(-1i8)).is_err());
    assert!(i8::try_from(Integer::from(128u8)).is_err());
    assert!(u64::try_from(Integer::from(-1i64)).is_err());
    assert!(i64::try_from(Integer::from(u64::MAX)).is_err());
    assert!(u128::try_from(Integer::from(-1i32)).is_err());
    assert!(u32::try_from(big(-(1i128 << 64))).is_err());
}

#[test]
fn conversion_error_describes_failure() {
    let e: ConvertError = u8::try_from(Integer::from(i64::MAX)).unwrap_err();
    assert!(e.message().starts_with("Unable to convert"));
    assert!(e.message().len() > "Unable to convert".len());
    assert_eq!(e.message(), "Unable to convert TryFromIntError(())");
    let f = ConvertError::from(u8::try_from(300u16).unwrap_err());
    assert_eq!(f.message(), format!("Unable to convert {:?}", u8::try_from(300u16).unwrap_err()));
}

#[test]
fn error_path_of_wide_values() {
    assert!(Integer::try_from(u128::MAX).is_err());
    assert!(Integer::try_from(i128::MAX).is_err());
    assert!(Integer::try_from(i128::MIN).is_err());
    assert!(Integer::try_from((u64::MAX as u128) + 1).is_err());
    assert!(Integer::try_from(u64::MAX as i128 + 1).is_err());
    assert!(Integer::try_from(-(1i128 << 64) - 1).is_err());
    assert!(Integer::try_from(u64::MAX as i128).is_ok());
    assert!(Integer::try_from(-(1i128 << 64)).is_ok());
}

#[test]
fn canonical_len_examples() {
    assert_eq!(Integer::from(0u8).canonical_len(), 1);
    assert_eq!(Integer::from(23u8).canonical_len(), 1);
    assert_eq!(Integer::from(24u8).canonical_len(), 2);
    assert_eq!(Integer::from(255u8).canonical_len(), 2);
    assert_eq!(Integer::from(256u16).canonical_len(), 3);
    assert_eq!(Integer::from(-1i8).canonical_len(), 1);
    assert_eq!(Integer::from(-24i8).canonical_len(), 1);
    assert_eq!(Integer::from(-25i8).canonical_len(), 2);
    assert_eq!(big(u64::MAX as i128).canonical_len(), 9);
}

#[test]
fn canonical_len_boundaries() {
    assert_eq!(Integer::from(24i64).canonical_len(), 2);
    assert_eq!(Integer::from(-128i64).canonical_len(), 2);
    assert_eq!(Integer::from(-129i64).canonical_len(), 3);
    assert_eq!(Integer::from(65535u64).canonical_len(), 3);
    assert_eq!(Integer::from(65536u64).canonical_len(), 5);
    assert_eq!(Integer::from(-32768i32).canonical_len(), 3);
    assert_eq!(Integer::from(-32769i32).canonical_len(), 5);
    assert_eq!(Integer::from(u32::MAX).canonical_len(), 5);
    assert_eq!(Integer::from(u32::MAX as u64 + 1).canonical_len(), 9);
    assert_eq!(Integer::from(i64::MIN).canonical_len(), 9);
}

#[test]
fn canonical_len_of_overflow_slot() {
    // Past 64 bits the value takes a tag byte and its 16-byte 128-bit form.
    assert_eq!(big(i64::MIN as i128 - 1).canonical_len(), 17);
    assert_eq!(big(-(1i128 << 64)).canonical_len(), 17);
}

#[test]
fn canonical_ordering_example() {
    let a = Integer::from(23u8);
    let b = Integer::from(24u8);
    let c = Integer::from(-1i8);
    let d = Integer::from(-2i8);
    assert_eq!(a.canonical_cmp(&b), Ordering::Less);
    assert_eq!(b.canonical_cmp(&c), Ordering::Greater);
    assert_eq!(a.canonical_cmp(&c), Ordering::Less);
    assert_eq!(c.canonical_cmp(&d), Ordering::Less);
    assert_eq!(d.canonical_cmp(&c), Ordering::Greater);
    assert_eq!(Integer::from(24u8).canonical_cmp(&Integer::from(-25i8)), Ordering::Less);
    assert_eq!(Integer::from(-25i8).canonical_cmp(&Integer::from(-30i64)), Ordering::Less);
}

#[test]
fn canonical_ordering_across_lengths_and_widths() {
    assert_eq!(Integer::from(-24i8).canonical_cmp(&Integer::from(24u8)), Ordering::Less);
    assert_eq!(Integer::from(1000u64).canonical_cmp(&Integer::from(999u16)), Ordering::Greater);
    assert_eq!(Integer::from(i64::MIN).canonical_cmp(&big(i64::MIN as i128 - 1)), Ordering::Less);
    assert_eq!(big(-(1i128 << 64)).canonical_cmp(&big(i64::MIN as i128 - 1)), Ordering::Greater);
    assert_eq!(Integer::from(u64::MAX).canonical_cmp(&Integer::from(i64::MIN)), Ordering::Less);
}

#[test]
fn equal_values_hash_alike() {
    // Hashing widens first, so equal values in different widths hash alike.
    assert_eq!(hash_of(&Integer::from(1u8)), hash_of(&Integer::from(1i64)));
    assert_eq!(hash_of(&Integer::from(-7i16)), hash_of(&big(-7)));
    assert_eq!(hash_of(&Integer::from(u64::MAX)), hash_of(&big(u64::MAX as i128)));
    assert_ne!(hash_of(&Integer::from(1u8)), hash_of(&Integer::from(2u8)));
}

#[test]
fn sign_and_widened_views() {
    assert!(Integer::from(-1i32).is_negative());
    assert!(!Integer::from(0i32).is_negative());
    assert!(!Integer::from(u64::MAX).is_negative());
    assert_eq!(Integer::from(-1i8).as_i128(), -1);
    assert_eq!(Integer::from(300u16).as_u64(), 300);
    assert_eq!(Integer::from(-1i8).as_u64(), u64::MAX);
    assert_eq!(big(-(1i128 << 64)).as_u64(), 0);
}
