use actor_discord::decimal::{parse_u64, print_u64};

#[test]
fn print_writes_decimal_without_leading_zeros() {
    assert_eq!(print_u64(0), "0");
    assert_eq!(print_u64(7), "7");
    assert_eq!(print_u64(10), "10");
    assert_eq!(print_u64(839604684573638696), "839604684573638696");
    assert_eq!(print_u64(u64::MAX), "18446744073709551615");
}

#[test]
fn parse_reads_what_the_standard_library_reads() {
    let cases = vec![
        "0",
        "7",
        "007",
        "+5",
        "18446744073709551615",
        "18446744073709551616",
        "99999999999999999999999",
        "",
        "+",
        "-1",
        "1 ",
        " 1",
        "12a",
        "١٢",
        "1_000",
        "++1",
    ];
    for text in cases {
        assert_eq!(parse_u64(text), text.parse::<u64>().ok(), "{:?}", text);
    }
}

#[test]
fn parse_gives_exact_values() {
    assert_eq!(parse_u64("839604684573638696"), Some(839604684573638696));
    assert_eq!(parse_u64("+42"), Some(42));
    assert_eq!(parse_u64("18446744073709551615"), Some(u64::MAX));
    assert_eq!(parse_u64("18446744073709551616"), None);
    assert_eq!(parse_u64(""), None);
}

#[test]
fn what_is_printed_is_read_back() {
    for n in [0u64, 1, 9, 10, 99, 100, 12345, u64::MAX - 1, u64::MAX] {
        assert_eq!(parse_u64(&print_u64(n)), Some(n));
    }
}
