use std::str::FromStr;

use polymarket_helpers::numbers::{
    decimal_from_outcome, parse_decimal, parse_u256, token_id_from_outcome, PackedDecimal, Uint256,
};
use polymarket_helpers::response::{
    bad_request, internal_error, ok_with_json, STATUS_BAD_REQUEST, STATUS_INTERNAL_SERVER_ERROR,
    STATUS_OK,
};
use polymarket_helpers::side::{parse_side, side_from_lowercase, Side};
use serde_json::Value;

fn error_text<T: std::fmt::Debug>(
    r: Result<T, (u16, polymarket_helpers::response::ApiResponse<Value>)>,
) -> (u16, i32, bool, String) {
    match r {
        Ok(v) => panic!("expected an error reply, got {:?}", v),
        Err((status, body)) => (status, body.code, body.data.is_none(), body.error.unwrap()),
    }
}

#[test]
fn bad_request_reports_failure_with_400() {
    let (status, body) = bad_request("missing field".to_string());
    assert_eq!(status, 400);
    assert_eq!(status, STATUS_BAD_REQUEST);
    assert_eq!(body.code, 1);
    assert!(body.data.is_none());
    assert_eq!(body.error, Some("missing field".to_string()));
}

#[test]
fn internal_error_reports_failure_with_500() {
    let (status, body) = internal_error("order error: timeout".to_string());
    assert_eq!(status, 500);
    assert_eq!(status, STATUS_INTERNAL_SERVER_ERROR);
    assert_eq!(body.code, 1);
    assert!(body.data.is_none());
    assert_eq!(body.error, Some("order error: timeout".to_string()));
}

#[test]
fn ok_with_json_carries_the_data() {
    let val = Value::from("order-1");
    let (status, body) = ok_with_json(val.clone());
    assert_eq!(status, 200);
    assert_eq!(status, STATUS_OK);
    assert_eq!(body.code, 0);
    assert_eq!(body.data, Some(val));
    assert!(body.error.is_none());
}

#[test]
fn ok_and_error_codes_follow_the_status() {
    let ok = ok_with_json(Value::Null);
    let bad = bad_request(String::new());
    let internal = internal_error(String::new());
    assert!(ok.0 == 200 && ok.1.code == 0);
    assert!(bad.0 == 400 && bad.1.code == 1);
    assert!(internal.0 == 500 && internal.1.code == 1);
}

#[test]
fn parse_u256_small_decimal() {
    let t = parse_u256("16").unwrap();
    assert_eq!(t, Uint256 { limbs: [16, 0, 0, 0] });
}

#[test]
fn parse_u256_crosses_a_limb() {
    let t = parse_u256("18446744073709551616").unwrap();
    assert_eq!(t.limbs, [0, 1, 0, 0]);
}

#[test]
fn parse_u256_hex_prefix() {
    let t = parse_u256("0x10").unwrap();
    assert_eq!(t.limbs, [16, 0, 0, 0]);
}

#[test]
fn parse_u256_ignores_underscores() {
    let t = parse_u256("1_000").unwrap();
    assert_eq!(t.limbs, [1000, 0, 0, 0]);
}

#[test]
fn parse_u256_empty_is_zero() {
    let t = parse_u256("").unwrap();
    assert_eq!(t.limbs, [0, 0, 0, 0]);
}

#[test]
fn parse_u256_token_id_matches_alloy() {
    let s = "64559207542767597021637818520033870602190377483912209920163945084657085847117";
    let t = parse_u256(s).unwrap();
    let expected = alloy_primitives::U256::from_str(s).unwrap();
    assert_eq!(t.limbs, expected.into_limbs());
    assert_eq!(alloy_primitives::U256::from_limbs(t.limbs).to_string(), s);
}

#[test]
fn parse_u256_invalid_digit() {
    let (status, code, no_data, msg) = error_text(parse_u256("abc"));
    assert_eq!(status, 400);
    assert_eq!(code, 1);
    assert!(no_data);
    assert_eq!(msg, "invalid token_id: invalid digit: a");
}

#[test]
fn parse_u256_overflow() {
    let too_big =
        "115792089237316195423570985008687907853269984665640564039457584007913129639936";
    let (status, _, _, msg) = error_text(parse_u256(too_big));
    assert_eq!(status, 400);
    assert_eq!(msg, "invalid token_id: the value is too large to fit the target type");
}

#[test]
fn parse_u256_max_fits() {
    let max = "115792089237316195423570985008687907853269984665640564039457584007913129639935";
    let t = parse_u256(max).unwrap();
    assert_eq!(t.limbs, [u64::MAX; 4]);
}

#[test]
fn token_id_from_outcome_keeps_limbs() {
    let t = token_id_from_outcome(Ok([1, 2, 3, 4])).unwrap();
    assert_eq!(t.limbs, [1, 2, 3, 4]);
}

#[test]
fn token_id_from_outcome_quotes_error() {
    let (status, code, no_data, msg) = error_text(token_id_from_outcome(Err("bad".to_string())));
    assert_eq!((status, code, no_data), (400, 1, true));
    assert_eq!(msg, "invalid token_id: bad");
}

#[test]
fn parse_decimal_matches_rust_decimal() {
    let d = parse_decimal("price", "0.55").unwrap();
    let expected = rust_decimal::Decimal::from_str("0.55").unwrap();
    assert_eq!(d.bytes, expected.serialize());
    assert_eq!(rust_decimal::Decimal::deserialize(d.bytes).to_string(), "0.55");
}

#[test]
fn parse_decimal_negative_and_integer() {
    let d = parse_decimal("size", "-12").unwrap();
    assert_eq!(rust_decimal::Decimal::deserialize(d.bytes).to_string(), "-12");
    let d = parse_decimal("size", "100").unwrap();
    assert_eq!(rust_decimal::Decimal::deserialize(d.bytes), rust_decimal::Decimal::from(100));
}

#[test]
fn parse_decimal_invalid_names_the_field() {
    let (status, code, no_data, msg) = error_text(parse_decimal("price", "abc"));
    assert_eq!((status, code, no_data), (400, 1, true));
    let parser_msg = rust_decimal::Decimal::from_str("abc").unwrap_err().to_string();
    assert_eq!(msg, format!("invalid price: {}", parser_msg));
    assert!(msg.starts_with("invalid price: "));
}

#[test]
fn parse_decimal_empty_is_an_error() {
    let (status, _, _, msg) = error_text(parse_decimal("size", ""));
    assert_eq!(status, 400);
    assert!(msg.starts_with("invalid size: "));
}

#[test]
fn decimal_from_outcome_keeps_bytes() {
    let bytes = [0u8, 0, 2, 0, 55, 0, 0, 0, 0, 0, 0, 0, 0, 0, 0, 0];
    let d = decimal_from_outcome("price", Ok(bytes)).unwrap();
    assert_eq!(d, PackedDecimal { bytes });
}

#[test]
fn decimal_from_outcome_quotes_name_and_error() {
    let (status, _, _, msg) = error_text(decimal_from_outcome("size", Err("oops".to_string())));
    assert_eq!(status, 400);
    assert_eq!(msg, "invalid size: oops");
}

#[test]
fn parse_side_buy_and_sell() {
    assert_eq!(parse_side("buy").unwrap(), Side::Buy);
    assert_eq!(parse_side("sell").unwrap(), Side::Sell);
}

#[test]
fn parse_side_ignores_case() {
    assert_eq!(parse_side("BUY").unwrap(), Side::Buy);
    assert_eq!(parse_side("Buy").unwrap(), Side::Buy);
    assert_eq!(parse_side("SeLL").unwrap(), Side::Sell);
}

#[test]
fn parse_side_rejects_other_words() {
    let (status, code, no_data, msg) = error_text(parse_side("Hold"));
    assert_eq!((status, code, no_data), (400, 1, true));
    assert_eq!(msg, "invalid side: must be 'buy' or 'sell', got 'Hold'");
}

#[test]
fn parse_side_does_not_trim() {
    let (_, _, _, msg) = error_text(parse_side(" buy"));
    assert_eq!(msg, "invalid side: must be 'buy' or 'sell', got ' buy'");
}

#[test]
fn parse_side_empty() {
    let (status, _, _, msg) = error_text(parse_side(""));
    assert_eq!(status, 400);
    assert_eq!(msg, "invalid side: must be 'buy' or 'sell', got ''");
}

#[test]
fn side_from_lowercase_uses_the_lowered_word() {
    let lowered = "sell".to_string();
    assert_eq!(side_from_lowercase(&lowered, "SELL").unwrap(), Side::Sell);
    let (_, _, _, msg) = error_text(side_from_lowercase(&"SELL".to_string(), "SELL"));
    assert_eq!(msg, "invalid side: must be 'buy' or 'sell', got 'SELL'");
}

#[test]
fn parse_side_refuses_long_s() {
    // U+017F LATIN SMALL LETTER LONG S is already lowercase: "ſell" is not "sell".
    let (status, _, _, msg) = error_text(parse_side("\u{17F}ell"));
    assert_eq!(status, 400);
    assert_eq!(msg, "invalid side: must be 'buy' or 'sell', got '\u{17F}ell'");
}

#[test]
fn parse_side_refuses_fullwidth_letters() {
    let (status, _, _, msg) = error_text(parse_side("\u{FF22}\u{FF35}\u{FF39}"));
    assert_eq!(status, 400);
    assert_eq!(msg, "invalid side: must be 'buy' or 'sell', got '\u{FF22}\u{FF35}\u{FF39}'");
}

#[test]
fn parse_side_refuses_dotted_capital_i() {
    let (status, _, _, msg) = error_text(parse_side("\u{130}"));
    assert_eq!(status, 400);
    assert_eq!(msg, "invalid side: must be 'buy' or 'sell', got '\u{130}'");
}

#[test]
fn parse_side_refuses_kelvin_sign_word() {
    // U+212A KELVIN SIGN lowercases to an ASCII 'k', which still names no side.
    let (status, _, _, _) = error_text(parse_side("\u{212A}"));
    assert_eq!(status, 400);
}

#[test]
fn parse_side_ascii_case_changes_nothing() {
    for w in ["buy", "sell", "bUy", "SELL", "hold", "Buy ", ""] {
        let a = parse_side(w).ok();
        assert_eq!(a, parse_side(&w.to_ascii_uppercase()).ok());
        assert_eq!(a, parse_side(&w.to_ascii_lowercase()).ok());
    }
}
