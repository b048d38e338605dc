use vstd::prelude::*;
use crate::response::{ApiResponse, bad_request, is_consistent, is_failure, STATUS_BAD_REQUEST};

verus! {

/// An unsigned 256-bit integer as four 64-bit limbs, least significant first
/// (the layout of `alloy_primitives::U256`).
#[derive(Debug, Clone, Copy, PartialEq, Eq)]
pub struct Uint256 {
    pub limbs: [u64; 4],
}

impl Uint256 {
    /// The number the limbs stand for.
    pub open spec fn value(self) -> nat {
        limbs_value(self.limbs@)
    }
}

/// The number that 64-bit limbs, least significant first, stand for.
pub open spec fn limbs_value(limbs: Seq<u64>) -> nat
    decreases limbs.len(),
{
    if limbs.len() == 0 {
        0
    } else {
        limbs[0] as nat + 0x1_0000_0000_0000_0000 * limbs_value(limbs.drop_first())
    }
}

/// 2^256, the first number a `U256` cannot hold.
pub open spec fn u256_limit() -> nat {
    0x1_0000_0000_0000_0000 * 0x1_0000_0000_0000_0000 * 0x1_0000_0000_0000_0000
        * 0x1_0000_0000_0000_0000
}

/// Every character is one of the digits `0`..=`9`.
pub open spec fn is_decimal_digits(s: Seq<char>) -> bool {
    forall|i: int| 0 <= i < s.len() ==> 48 <= (#[trigger] s[i] as u32) <= 57
}

/// The number that a string of decimal digits writes (0 for no digits).
pub open spec fn decimal_value(s: Seq<char>) -> nat
    decreases s.len(),
{
    if s.len() == 0 {
        0
    } else {
        decimal_value(s.drop_last()) * 10 + ((s.last() as u32) - 48) as nat
    }
}

/// A `rust_decimal::Decimal` in the 16 bytes of its own serialized form
/// (flags, then the low, middle and high words of the mantissa), from which
/// `Decimal::deserialize` gives back the same number.
#[derive(Debug, Clone, Copy, PartialEq, Eq)]
pub struct PackedDecimal {
    pub bytes: [u8; 16],
}

/// What `<alloy_primitives::U256 as FromStr>::from_str` gives for a string:
/// the limbs of the number, or the text of the error.
pub uninterp spec fn u256_from_str(s: Seq<char>) -> Result<Seq<u64>, Seq<char>>;

/// What `<rust_decimal::Decimal as FromStr>::from_str` gives for a string:
/// the serialized bytes of the number, or the text of the error.
pub uninterp spec fn decimal_from_str(s: Seq<char>) -> Result<Seq<u8>, Seq<char>>;

/// A parse outcome with its limbs and its error text as plain values.
pub open spec fn limbs_outcome(r: Result<[u64; 4], String>) -> Result<Seq<u64>, Seq<char>> {
    match r {
        Ok(l) => Ok(l@),
        Err(e) => Err(e@),
    }
}

/// A parse outcome with its bytes and its error text as plain values.
pub open spec fn bytes_outcome(r: Result<[u8; 16], String>) -> Result<Seq<u8>, Seq<char>> {
    match r {
        Ok(b) => Ok(b@),
        Err(e) => Err(e@),
    }
}

/// Calls `<alloy_primitives::U256 as FromStr>::from_str` (ruint's parser:
/// an optional `0x`/`0o`/`0b` radix prefix, digits, `_` ignored). The limbs
/// of the result, or the `Display` text of the error, are what
/// `u256_from_str` names for the string. For a string of decimal digits alone
/// the source shows more, and that is claimed too: with no radix prefix it is
/// read in base 10, a chunk at a time with a check for overflow at each step,
/// so it gives the limbs of the number it writes when that is below 2^256, and
/// otherwise the overflow error, whose text is the one stated. Other strings
/// are left to the name.
#[verifier::external_body]
fn u256_parse(s: &str) -> (r: Result<[u64; 4], String>)
    ensures
        limbs_outcome(r) == u256_from_str(s@),
        is_decimal_digits(s@) && decimal_value(s@) < u256_limit() ==> r is Ok && limbs_value(
            r->Ok_0@,
        ) == decimal_value(s@),
        is_decimal_digits(s@) && decimal_value(s@) >= u256_limit() ==> r is Err && r->Err_0@
            == "the value is too large to fit the target type"@,
{
    match <alloy_primitives::U256 as std::str::FromStr>::from_str(s) {
        Ok(v) => Ok(v.into_limbs()),
        Err(e) => Err(e.to_string()),
    }
}

/// Calls `<rust_decimal::Decimal as FromStr>::from_str`. The claim is only
/// that the serialized bytes of the result (`Decimal::serialize`), or the
/// `Display` text of the error, are what `decimal_from_str` names for the
/// string.
#[verifier::external_body]
fn decimal_parse(s: &str) -> (r: Result<[u8; 16], String>)
    ensures
        bytes_outcome(r) == decimal_from_str(s@),
{
    match <rust_decimal::Decimal as std::str::FromStr>::from_str(s) {
        Ok(d) => Ok(d.serialize()),
        Err(e) => Err(e.to_string()),
    }
}

/// The error text of a token id that did not parse.
pub open spec fn token_id_message(err: Seq<char>) -> Seq<char> {
    "invalid token_id: "@ + err
}

/// The error text of a decimal field `name` that did not parse.
pub open spec fn decimal_message(name: Seq<char>, err: Seq<char>) -> Seq<char> {
    "invalid "@ + name + ": "@ + err
}

/// Turns the outcome of parsing a token id into the handler's result: the
/// number, or a 400 reply that names the parse error.
pub fn token_id_from_outcome(r: Result<[u64; 4], String>) -> (res: Result<
    Uint256,
    (u16, ApiResponse<serde_json::Value>),
>)
    ensures
        res is Ok <==> r is Ok,
        r matches Ok(l) ==> res matches Ok(t) && t.limbs == l,
        r matches Err(e) ==> res matches Err(reply) && reply.0 == STATUS_BAD_REQUEST
            && is_failure(reply.1, token_id_message(e@)) && is_consistent(reply.0, reply.1),
{
    match r {
        Ok(limbs) => Ok(Uint256 { limbs }),
        Err(e) => {
            let mut msg = String::from_str("invalid token_id: ");
            msg.append(e.as_str());
            Err(bad_request(msg))
        },
    }
}

/// Turns the outcome of parsing the decimal field `name` into the handler's
/// result: the number, or a 400 reply that names the field and the error.
pub fn decimal_from_outcome(name: &str, r: Result<[u8; 16], String>) -> (res: Result<
    PackedDecimal,
    (u16, ApiResponse<serde_json::Value>),
>)
    ensures
        res is Ok <==> r is Ok,
        r matches Ok(b) ==> res matches Ok(d) && d.bytes == b,
        r matches Err(e) ==> res matches Err(reply) && reply.0 == STATUS_BAD_REQUEST
            && is_failure(reply.1, decimal_message(name@, e@)) && is_consistent(reply.0, reply.1),
{
    match r {
        Ok(bytes) => Ok(PackedDecimal { bytes }),
        Err(e) => {
            let mut msg = String::from_str("invalid ");
            msg.append(name);
            msg.append(": ");
            msg.append(e.as_str());
            Err(bad_request(msg))
        },
    }
}

/// Parses a token id the way `U256::from_str` does; on failure, a 400 reply
/// whose error is `invalid token_id: ` and the parser's message. A string of
/// decimal digits is accepted exactly when the number it writes fits in 256
/// bits, and then that number is the result.
pub fn parse_u256(s: &str) -> (res: Result<Uint256, (u16, ApiResponse<serde_json::Value>)>)
    ensures
        is_decimal_digits(s@) ==> (res is Ok <==> decimal_value(s@) < u256_limit()),
        is_decimal_digits(s@) ==> (res matches Ok(t) ==> t.value() == decimal_value(s@)),
        is_decimal_digits(s@) && decimal_value(s@) >= u256_limit() ==> (res matches Err(reply)
            && is_failure(
            reply.1,
            token_id_message("the value is too large to fit the target type"@),
        )),
        res is Ok <==> u256_from_str(s@) is Ok,
        u256_from_str(s@) matches Ok(l) ==> res matches Ok(t) && t.limbs@ == l,
        u256_from_str(s@) matches Err(e) ==> res matches Err(reply) && reply.0
            == STATUS_BAD_REQUEST && is_failure(reply.1, token_id_message(e)) && is_consistent(
            reply.0,
            reply.1,
        ),
{
    token_id_from_outcome(u256_parse(s))
}

/// Parses the decimal field `name` the way `Decimal::from_str` does; on
/// failure, a 400 reply whose error is `invalid <name>: ` and the parser's
/// message.
pub fn parse_decimal(name: &str, s: &str) -> (res: Result<PackedDecimal, (u16, ApiResponse<serde_json::Value>)>)
    ensures
        res is Ok <==> decimal_from_str(s@) is Ok,
        decimal_from_str(s@) matches Ok(b) ==> res matches Ok(d) && d.bytes@ == b,
        decimal_from_str(s@) matches Err(e) ==> res matches Err(reply) && reply.0
            == STATUS_BAD_REQUEST && is_failure(reply.1, decimal_message(name@, e))
            && is_consistent(reply.0, reply.1),
{
    decimal_from_outcome(name, decimal_parse(s))
}

} // verus!
