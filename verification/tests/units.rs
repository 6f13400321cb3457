use nvtweak::numfmt::{u32_to_decimal, u64_to_decimal};
use nvtweak::units::{bytes_to_mebibytes, milliwatts_to_watts};

#[test]
fn mebibytes_is_floor_of_byte_count() {
    assert_eq!(bytes_to_mebibytes(1_024_000_000), 1000);
    assert_eq!(u64_to_decimal(bytes_to_mebibytes(1_024_000_000)), "1000");
    assert_eq!(bytes_to_mebibytes(0), 0);
    assert_eq!(bytes_to_mebibytes(1_023_999), 0);
    assert_eq!(bytes_to_mebibytes(1_024_000), 1);
    assert_eq!(bytes_to_mebibytes(2_047_999), 1);
    assert_eq!(bytes_to_mebibytes(u64::MAX), u64::MAX / 1_024_000);
}

#[test]
fn watts_is_floor_of_milliwatts() {
    assert_eq!(milliwatts_to_watts(150_000), 150);
    assert_eq!(milliwatts_to_watts(0), 0);
    assert_eq!(milliwatts_to_watts(999), 0);
    assert_eq!(milliwatts_to_watts(1_999), 1);
    assert_eq!(milliwatts_to_watts(u32::MAX), u32::MAX / 1_000);
}

#[test]
fn decimal_rendering_is_exact() {
    assert_eq!(u64_to_decimal(0), "0");
    assert_eq!(u64_to_decimal(7), "7");
    assert_eq!(u64_to_decimal(10), "10");
    assert_eq!(u64_to_decimal(1000), "1000");
    assert_eq!(u64_to_decimal(u64::MAX), "18446744073709551615");
    assert_eq!(u32_to_decimal(150), "150");
    assert_eq!(u32_to_decimal(u32::MAX), "4294967295");
}
