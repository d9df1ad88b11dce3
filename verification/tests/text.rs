use wee::text::{
    decimal_string, joined, last_segment_of, parse_u128, parse_usize, path_chain_of, push_decimal,
};

#[test]
fn decimal_string_writes_without_padding() {
    assert_eq!(decimal_string(0), "0");
    assert_eq!(decimal_string(7), "7");
    assert_eq!(decimal_string(10), "10");
    assert_eq!(decimal_string(1000), "1000");
    assert_eq!(decimal_string(27017), "27017");
    assert_eq!(decimal_string(u64::MAX), "18446744073709551615");
}

#[test]
fn push_decimal_appends_to_what_is_there() {
    let mut out = String::from("port ");
    push_decimal(&mut out, 6379);
    assert_eq!(out, "port 6379");
    push_decimal(&mut out, 0);
    assert_eq!(out, "port 63790");
}

#[test]
fn parse_reads_plain_numerals() {
    assert_eq!(parse_u128("0"), Some(0));
    assert_eq!(parse_u128("7"), Some(7));
    assert_eq!(parse_u128("102"), Some(102));
    assert_eq!(parse_u128("0000000001"), Some(1));
    assert_eq!(parse_u128("0000000000"), Some(0));
}

#[test]
fn parse_accepts_one_leading_plus() {
    assert_eq!(parse_u128("+5"), Some(5));
    assert_eq!(parse_u128("++5"), None);
    assert_eq!(parse_u128("+"), None);
    assert_eq!(parse_u128("5+"), None);
}

#[test]
fn parse_refuses_what_is_no_numeral() {
    assert_eq!(parse_u128(""), None);
    assert_eq!(parse_u128("-1"), None);
    assert_eq!(parse_u128("12a"), None);
    assert_eq!(parse_u128("a12"), None);
    assert_eq!(parse_u128(" 1"), None);
    assert_eq!(parse_u128("1 "), None);
    assert_eq!(parse_u128("١٢"), None);
    assert_eq!(parse_u128("shard-0-0-1000"), None);
}

#[test]
fn parse_knows_the_largest_number() {
    assert_eq!(parse_u128("340282366920938463463374607431768211455"), Some(u128::MAX));
    assert_eq!(parse_u128("340282366920938463463374607431768211456"), None);
    assert_eq!(parse_u128("340282366920938463463374607431768211460"), None);
    assert_eq!(parse_u128("3402823669209384634633746074317682114550"), None);
    assert_eq!(parse_u128("9999999999999999999999999999999999999999"), None);
    assert_eq!(parse_u128("99999999999999999999999999999999999999x"), None);
}

#[test]
fn parse_agrees_with_the_standard_library() {
    let samples = [
        "0", "1", "+1", "-1", "", "+", "42", "0042", "18446744073709551615",
        "18446744073709551616", "abc", "1e3", "１２",
    ];
    for s in samples {
        assert_eq!(parse_u128(s), s.parse::<u128>().ok(), "{s}");
        assert_eq!(parse_usize(s), s.parse::<usize>().ok(), "{s}");
    }
}

#[test]
fn parse_usize_stops_at_the_machine_word() {
    assert_eq!(parse_usize(&usize::MAX.to_string()), Some(usize::MAX));
    let beyond = (usize::MAX as u128 + 1).to_string();
    assert_eq!(parse_usize(&beyond), None);
    assert_eq!(parse_u128(&beyond), Some(usize::MAX as u128 + 1));
}

#[test]
fn decimal_round_trip() {
    for n in [0u64, 1, 9, 10, 99, 100, 101, 102, 61, 62, 63, 3843, 3844, 1_000_000, u64::MAX] {
        assert_eq!(parse_u128(&decimal_string(n)), Some(n as u128));
    }
}

#[test]
fn last_segment_follows_the_last_slash() {
    assert_eq!(last_segment_of("/wee/shard-0-0-1000/0000000003"), "0000000003");
    assert_eq!(last_segment_of("/a/b"), "b");
    assert_eq!(last_segment_of("abc"), "abc");
    assert_eq!(last_segment_of("a/"), "");
    assert_eq!(last_segment_of("/"), "");
    assert_eq!(last_segment_of(""), "");
    assert_eq!(last_segment_of("/é/ü"), "ü");
}

#[test]
fn path_chain_lists_every_ancestor() {
    assert_eq!(path_chain_of("/wee/shard-0-0-1000"), vec!["/wee", "/wee/shard-0-0-1000"]);
    assert_eq!(path_chain_of("/a/b/c"), vec!["/a", "/a/b", "/a/b/c"]);
    assert_eq!(path_chain_of("/a"), vec!["/a"]);
    assert_eq!(path_chain_of("//x"), vec!["/", "//x"]);
    assert_eq!(path_chain_of(""), Vec::<String>::new());
}

#[test]
fn joined_puts_one_after_the_other() {
    assert_eq!(joined("Client Error: ", "timeout"), "Client Error: timeout");
    assert_eq!(joined("", ""), "");
}
