use incidentbench::decimal::{
    fixed_of, less, millis_of, padded_of, shortest_of, signed_fixed_of, signed_shortest_of,
    written_of,
};
use incidentbench::events::render;
use incidentbench::json::Json;
use incidentbench::model::{bind_entry, find_in, position};
use incidentbench::order::{sort_by_name, sort_by_time};
use incidentbench::metrics::PerQueryTimeSeriesPoint;
use incidentbench::sorting::sort;
use incidentbench::text::{
    contains, decimal_i64, ends_with, float_literal, join, parse_i64, parse_scaled, parse_u64,
    replace, split, split_once, starts_with, strip_prefixes, strip_trailing, to_ascii_lower, trim,
    trim_end,
};
use incidentbench::validation::quote_items;

#[test]
fn texts() {
    assert!(contains("abcabc", "cab"));
    assert!(!contains("abc", "abcd"));
    assert!(contains("x", ""));
    assert!(starts_with("abc", "ab") && ends_with("abc", "bc"));
    assert_eq!(split("a,,b", ","), vec!["a", "", "b"]);
    assert_eq!(split("", ","), vec![""]);
    assert_eq!(split_once("a=b=c", "="), Some(("a".to_string(), "b=c".to_string())));
    assert_eq!(split_once("abc", "="), None);
    assert_eq!(replace("aXbX", "X", "--"), "a--b--");
    assert_eq!(join(&vec!["a".to_string(), "b".to_string()], ", "), "a, b");
    assert_eq!(trim(" \t a b \n"), "a b");
    assert_eq!(trim_end(" a "), " a");
    assert_eq!(to_ascii_lower("ÄBC"), "Äbc");
    assert_eq!(strip_prefixes(">>5", ">"), "5");
    assert_eq!(strip_trailing("x))", ')'), "x");
}

#[test]
fn numbers_are_read() {
    assert_eq!(parse_u64("18446744073709551615"), Some(u64::MAX));
    assert_eq!(parse_u64("18446744073709551616"), None);
    assert_eq!(parse_u64("+7"), Some(7));
    assert_eq!(parse_u64(""), None);
    assert_eq!(parse_i64("-9223372036854775808"), Some(i64::MIN));
    assert_eq!(parse_i64("9223372036854775808"), None);
    assert_eq!(parse_i64("-"), None);
    assert!(float_literal("1e9") && float_literal(".5") && float_literal("-2."));
    assert!(!float_literal(".") && !float_literal("1e") && !float_literal("x"));
    assert_eq!(parse_scaled("0.1", 6, i64::MAX as u128), Some(100_000));
    assert_eq!(parse_scaled("-2.5", 6, i64::MAX as u128), Some(-2_500_000));
    assert_eq!(parse_scaled("1e3", 6, i64::MAX as u128), Some(1_000_000_000));
    assert_eq!(parse_scaled("12.3456789", 6, i64::MAX as u128), Some(12_345_678));
    assert_eq!(parse_scaled("5e-7", 6, i64::MAX as u128), Some(0));
    assert_eq!(parse_scaled("1e999999999", 6, i64::MAX as u128), Some(i64::MAX as i128));
    assert_eq!(parse_scaled("0e999999999", 6, i64::MAX as u128), Some(0));
    assert_eq!(parse_scaled("", 6, i64::MAX as u128), None);
    assert_eq!(parse_scaled("1.2.3", 6, i64::MAX as u128), None);
    assert_eq!(decimal_i64(-12), "-12");
}

#[test]
fn quotients_are_rounded_half_to_even() {
    assert_eq!(fixed_of(1, 8, 2), "0.12");
    assert_eq!(fixed_of(3, 8, 2), "0.38");
    assert_eq!(fixed_of(5, 2, 0), "2");
    assert_eq!(fixed_of(7, 2, 0), "4");
    assert_eq!(fixed_of(999_999, 1_000_000, 1), "1.0");
    assert_eq!(shortest_of(2_500_000, 6), "2.5");
    assert_eq!(shortest_of(3_000_000, 6), "3");
    assert_eq!(shortest_of(1, 6), "0.000001");
    assert_eq!(signed_shortest_of(-250_000_000, 9), "-0.25");
    assert_eq!(signed_fixed_of(-5, 2, 1), "-2.5");
    assert_eq!(padded_of(7, 3), "007");
}

#[test]
fn quotients_are_written_as_decimals() {
    assert_eq!(written_of(7, 2, 18), "3.5");
    assert_eq!(written_of(6, 2, 18), "3.0");
    assert_eq!(written_of(1, 3, 4), "0.3333");
    assert_eq!(written_of(u128::MAX, u128::MAX - 1, 2), "1.0");
    assert_eq!(written_of(u128::MAX - 1, u128::MAX, 5), "0.99999");
    assert_eq!(millis_of(5_000_000), "5.0");
    assert_eq!(millis_of(5_250_000), "5.25");
    assert_eq!(millis_of(0), "0.0");
    assert_eq!(millis_of(7), "7e-6");
    assert_eq!(millis_of(10), "0.00001");
    assert_eq!(render(&Json::Quotient { num: 9, den: 4 }), "2.25");
    assert_eq!(render(&Json::Quotient { num: 9, den: 0 }), "null");
}

#[test]
fn quotients_are_compared() {
    assert!(less(1, 3, 2, 5) && !less(2, 5, 1, 3) && !less(2, 4, 1, 2));
    assert!(less(u128::MAX - 1, u128::MAX, 1, 1));
    assert!(less(u128::MAX - 2, u128::MAX - 1, u128::MAX - 1, u128::MAX));
    assert!(!less(0, 7, 0, 3) && less(0, 7, 1, u128::MAX));
}

#[test]
fn documents() {
    let j = Json::object()
        .with("a", Json::Bool(true))
        .with("b", Json::array().item(Json::Null).item(Json::Int(-1)))
        .with("c", Json::text("x\u{1}\\"));
    assert_eq!(render(&j), "{\"a\":true,\"b\":[null,-1],\"c\":\"x\\u0001\\\\\"}");
    assert_eq!(render(&j.copy()), render(&j));
    assert!(j.get("b").is_some() && j.get("z").is_none());
    assert_eq!(j.get("c").and_then(|c| c.as_text()), Some("x\u{1}\\"));
    assert_eq!(Json::Int(-1).as_uint(), None);
    assert_eq!(Json::Int(5).as_uint(), Some(5));
}

#[test]
fn tables() {
    let mut t: Vec<(String, u64)> = Vec::new();
    bind_entry(&mut t, "a", 1);
    bind_entry(&mut t, "b", 2);
    bind_entry(&mut t, "a", 3);
    assert_eq!(t.len(), 2);
    assert_eq!(find_in(&t, "a"), Some(&3));
    assert_eq!(find_in(&t, "c"), None);
    assert_eq!(position(&t, "b"), Some(1));
}

#[test]
fn orders() {
    assert_eq!(sort(&vec![3, 1, 2, 1]), vec![1, 1, 2, 3]);
    let named = vec![("b".to_string(), 1u64), ("a".to_string(), 2), ("b".to_string(), 3), ("B".to_string(), 4)];
    let names: Vec<(String, u64)> = sort_by_name(&named);
    assert_eq!(
        names.iter().map(|e| (e.0.as_str(), e.1)).collect::<Vec<_>>(),
        vec![("B", 4), ("a", 2), ("b", 1), ("b", 3)]
    );
    let p = |t: u64| PerQueryTimeSeriesPoint {
        timestamp_s: t,
        phase: String::new(),
        p95_ns: 0,
        count: 0,
        error_count: 0,
    };
    let sorted = sort_by_time(&vec![p(2), p(1), p(3)]);
    assert_eq!(sorted.iter().map(|x| x.timestamp_s).collect::<Vec<_>>(), vec![1, 2, 3]);
}

#[test]
fn names_are_quoted() {
    let names = vec!["a".to_string(), "b\"c\n".to_string()];
    assert_eq!(quote_items(&names), "\"a\", \"b\\\"c\\n\"");
}
