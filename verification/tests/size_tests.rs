use script::size::parse_size;

#[test]
fn test_invalid_arg() {
    let r = parse_size("--definitely-invalid");
    assert!(r.is_err());
    assert_eq!(r.unwrap_err(), "Invalid number: --definitely-invalid");
}

#[test]
fn test_parse_size_plain_bytes() {
    assert_eq!(parse_size("0"), Ok(0));
    assert_eq!(parse_size("1024"), Ok(1024));
    assert_eq!(parse_size("+5"), Ok(5));
    assert_eq!(parse_size("007"), Ok(7));
}

#[test]
fn test_parse_size_binary_suffixes() {
    assert_eq!(parse_size("1K"), Ok(1024));
    assert_eq!(parse_size("1KiB"), Ok(1024));
    assert_eq!(parse_size("2M"), Ok(2 * 1024 * 1024));
    assert_eq!(parse_size("2MiB"), Ok(2 * 1024 * 1024));
    assert_eq!(parse_size("3G"), Ok(3 * 1024 * 1024 * 1024));
    assert_eq!(parse_size("3GiB"), Ok(3 * 1024 * 1024 * 1024));
}

#[test]
fn test_parse_size_decimal_suffixes() {
    assert_eq!(parse_size("1KB"), Ok(1000));
    assert_eq!(parse_size("10KB"), Ok(10000));
    assert_eq!(parse_size("1MB"), Ok(1000000));
    assert_eq!(parse_size("1GB"), Ok(1000000000));
}

#[test]
fn test_parse_size_rejects_garbage() {
    assert!(parse_size("").is_err());
    assert!(parse_size("+").is_err());
    assert!(parse_size("abc").is_err());
    assert!(parse_size("12x34").is_err());
    assert!(parse_size("-5").is_err());
    assert!(parse_size("KiB").is_err());
}

#[test]
fn test_parse_size_error_names_numeric_part() {
    // once a suffix is recognised, the complaint names only what precedes it
    assert_eq!(parse_size("abcK").unwrap_err(), "Invalid number: abc");
    assert_eq!(parse_size("1.5K").unwrap_err(), "Invalid number: 1.5");
    assert_eq!(parse_size("KiB").unwrap_err(), "Invalid number: ");
    // without a suffix the whole input is the number
    assert_eq!(parse_size("xyz").unwrap_err(), "Invalid number: xyz");
    assert_eq!(parse_size("").unwrap_err(), "Invalid number: ");
}

#[test]
fn test_parse_size_limits() {
    assert_eq!(parse_size("18446744073709551615"), Ok(u64::MAX));
    assert!(parse_size("18446744073709551616").is_err());
    assert!(parse_size("99999999999999999999999").is_err());
    // fits as a numeral but overflows once scaled
    assert!(parse_size("18446744073709551615K").is_err());
}
