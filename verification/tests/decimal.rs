use liquidity_gateway::decimal::{parse_small, parse_units, Decimal, FixedPrice, MAX_PRICE_UNITS, SCALE};
use liquidity_gateway::decimal_text::{format_number, format_units};

#[test]
fn reads_plain_decimals() {
    assert_eq!(parse_units("0"), Some(0));
    assert_eq!(parse_units("1"), Some(SCALE));
    assert_eq!(parse_units("0.01634790"), Some(1_634_790));
    assert_eq!(parse_units("123.45"), Some(12_345_000_000));
    assert_eq!(parse_units("0.00000001"), Some(1));
    assert_eq!(parse_units("007.5"), Some(750_000_000));
}

#[test]
fn reads_a_point_at_either_end() {
    assert_eq!(parse_units(".5"), Some(50_000_000));
    assert_eq!(parse_units("5."), Some(500_000_000));
}

#[test]
fn drops_digits_beyond_the_eighth() {
    assert_eq!(parse_units("0.123456789"), Some(12_345_678));
    assert_eq!(parse_units("0.30000000000000004"), Some(30_000_000));
    assert_eq!(parse_units("0.000000009"), Some(0));
}

#[test]
fn refuses_what_is_not_a_plain_decimal() {
    assert_eq!(parse_units(""), None);
    assert_eq!(parse_units("."), None);
    assert_eq!(parse_units("-1"), None);
    assert_eq!(parse_units("+1"), None);
    assert_eq!(parse_units("1e5"), None);
    assert_eq!(parse_units("1.2.3"), None);
    assert_eq!(parse_units(" 1"), None);
    assert_eq!(parse_units("1,5"), None);
    assert_eq!(parse_units("NaN"), None);
    assert_eq!(parse_units("１２"), None);
}

#[test]
fn refuses_what_does_not_fit() {
    assert_eq!(parse_units("184467440737.09551615"), Some(u64::MAX));
    assert_eq!(parse_units("184467440737.09551616"), None);
    assert_eq!(parse_units("99999999999999999999999999999999999999999999"), None);
}

#[test]
fn prices_are_bounded() {
    assert!(FixedPrice::parse("100000000").is_some());
    assert_eq!(FixedPrice::parse("100000000").unwrap().units(), MAX_PRICE_UNITS);
    assert!(FixedPrice::parse("100000000.00000001").is_none());
    assert!(FixedPrice::from_units(MAX_PRICE_UNITS).is_some());
    assert!(FixedPrice::from_units(MAX_PRICE_UNITS + 1).is_none());
    assert_eq!(FixedPrice::zero().units(), 0);
    assert_eq!(FixedPrice::parse("1.5").unwrap().to_decimal(), Decimal::from_units(150_000_000));
}

#[test]
fn amounts_parse_like_units() {
    assert_eq!(Decimal::parse("2.5"), Some(Decimal { units: 250_000_000 }));
    assert_eq!(Decimal::parse("x"), None);
}

#[test]
fn reads_small_numbers() {
    assert_eq!(parse_small("18"), Some(18));
    assert_eq!(parse_small("+6"), Some(6));
    assert_eq!(parse_small("0"), Some(0));
    assert_eq!(parse_small("255"), Some(255));
    assert_eq!(parse_small("0255"), Some(255));
    assert_eq!(parse_small("256"), None);
    assert_eq!(parse_small(""), None);
    assert_eq!(parse_small("+"), None);
    assert_eq!(parse_small("-0"), None);
    assert_eq!(parse_small("1 "), None);
    assert_eq!(parse_small("1.0"), None);
    assert_eq!(parse_small("é"), None);
}

#[test]
fn small_numbers_agree_with_the_standard_parser() {
    for text in ["0", "7", "+7", "007", "255", "256", "999", "", "+", "-1", "a", "1a", "++1"] {
        assert_eq!(parse_small(text), text.parse::<u8>().ok(), "{}", text);
    }
}

#[test]
fn writes_numbers() {
    assert_eq!(format_number(0), "0");
    assert_eq!(format_number(7), "7");
    assert_eq!(format_number(200), "200");
    assert_eq!(format_number(u64::MAX), "18446744073709551615");
}

#[test]
fn writes_amounts_in_shortest_form() {
    assert_eq!(format_units(0), "0");
    assert_eq!(format_units(SCALE), "1");
    assert_eq!(format_units(30_000_000), "0.3");
    assert_eq!(format_units(1), "0.00000001");
    assert_eq!(format_units(12_345_000_000), "123.45");
    assert_eq!(format_units(u64::MAX), "184467440737.09551615");
    assert_eq!(Decimal::from_units(2_690_000_000).to_text(), "26.9");
    assert_eq!(FixedPrice::parse("0.0500").unwrap().to_text(), "0.05");
}

#[test]
fn what_is_written_reads_back() {
    let mut units: u64 = 1;
    for step in 0..2000u64 {
        assert_eq!(parse_units(&format_units(units)), Some(units));
        units = units.wrapping_mul(6364136223846793005).wrapping_add(step);
    }
    for units in [0, 1, 9, 10, SCALE - 1, SCALE, SCALE + 1, u64::MAX] {
        assert_eq!(parse_units(&format_units(units)), Some(units));
    }
}
