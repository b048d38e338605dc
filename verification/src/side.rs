use vstd::prelude::*;
use crate::response::{ApiResponse, bad_request, is_consistent, is_failure, STATUS_BAD_REQUEST};

verus! {

/// The side of an order.
#[derive(Debug, Clone, Copy, PartialEq, Eq, Structural)]
pub enum Side {
    Buy,
    Sell,
}

/// What `str::to_lowercase` gives for a string (Unicode lowercase mapping).
pub uninterp spec fn str_to_lowercase(s: Seq<char>) -> Seq<char>;

/// Every character of the text is ASCII.
pub open spec fn is_ascii_text(s: Seq<char>) -> bool {
    forall|i: int| 0 <= i < s.len() ==> (#[trigger] s[i] as u32) < 128
}

/// An ASCII capital letter becomes its small letter; any other character
/// stays as it is.
pub open spec fn ascii_lower_char(c: char) -> char {
    if 65 <= (c as u32) <= 90 {
        ((c as u32) + 32) as char
    } else {
        c
    }
}

/// The text with each ASCII capital letter made small.
pub open spec fn ascii_lowercase(s: Seq<char>) -> Seq<char> {
    s.map_values(|c: char| ascii_lower_char(c))
}

/// Calls `str::to_lowercase`. The result is what `str_to_lowercase` names for
/// the string. For all-ASCII text it is also stated exactly: `to_lowercase`
/// lowercases by the Unicode `Lowercase` mapping (its documentation says so),
/// and that mapping takes `A`..=`Z` to `a`..=`z` and leaves every other ASCII
/// character as it is, one character for one. Nothing is said of how
/// characters beyond ASCII are mapped.
#[verifier::external_body]
fn lowercase(s: &str) -> (r: String)
    ensures
        r@ == str_to_lowercase(s@),
        is_ascii_text(s@) ==> r@ == ascii_lowercase(s@),
{
    s.to_lowercase()
}

/// The side that a lowercased word names, if any.
pub open spec fn side_of(lower: Seq<char>) -> Option<Side> {
    if lower == "buy"@ {
        Some(Side::Buy)
    } else if lower == "sell"@ {
        Some(Side::Sell)
    } else {
        None
    }
}

/// An ASCII small letter becomes its capital letter; any other character
/// stays as it is.
pub open spec fn ascii_upper_char(c: char) -> char {
    if 97 <= (c as u32) <= 122 {
        ((c as u32) - 32) as char
    } else {
        c
    }
}

/// The text with each ASCII small letter made capital.
pub open spec fn ascii_uppercase(s: Seq<char>) -> Seq<char> {
    s.map_values(|c: char| ascii_upper_char(c))
}

/// `t` is `s` with the case of some ASCII letters changed, and nothing else.
pub open spec fn differs_only_in_ascii_case(s: Seq<char>, t: Seq<char>) -> bool {
    &&& s.len() == t.len()
    &&& forall|i: int| 0 <= i < s.len() ==> ascii_lower_char(#[trigger] s[i]) == ascii_lower_char(
        #[trigger] t[i],
    )
}

/// Changing the case of ASCII letters in an ASCII word changes neither whether
/// it names a side nor which: the other word is ASCII too, and both lowercase
/// (the way `parse_side` reads ASCII words) to the same text.
pub proof fn lemma_ascii_case_keeps_side(s: Seq<char>, t: Seq<char>)
    requires
        is_ascii_text(s),
        differs_only_in_ascii_case(s, t),
    ensures
        is_ascii_text(t),
        ascii_lowercase(s) == ascii_lowercase(t),
        side_of(ascii_lowercase(s)) == side_of(ascii_lowercase(t)),
{
    assert forall|i: int| 0 <= i < t.len() implies (#[trigger] t[i] as u32) < 128 by {
        assert(ascii_lower_char(s[i]) == ascii_lower_char(t[i]));
        assert((s[i] as u32) < 128);
    }
    assert(ascii_lowercase(s) =~= ascii_lowercase(t));
}

/// A character is the character of its own code.
proof fn lemma_char_code_round_trip(c: char)
    ensures
        (c as u32) as char == c,
{
}

/// Uppercasing or lowercasing the ASCII letters of a word only changes the
/// case of ASCII letters.
pub proof fn lemma_ascii_case_maps(s: Seq<char>)
    ensures
        differs_only_in_ascii_case(s, ascii_uppercase(s)),
        differs_only_in_ascii_case(s, ascii_lowercase(s)),
{
    assert forall|i: int| 0 <= i < s.len() implies ascii_lower_char(#[trigger] s[i])
        == ascii_lower_char(#[trigger] ascii_uppercase(s)[i]) by {
        let c = s[i];
        if 97 <= (c as u32) <= 122 {
            lemma_char_code_round_trip(c);
        }
    }
    assert forall|i: int| 0 <= i < s.len() implies ascii_lower_char(#[trigger] s[i])
        == ascii_lower_char(#[trigger] ascii_lowercase(s)[i]) by {
        let c = s[i];
        if 65 <= (c as u32) <= 90 {
            assert(((((c as u32) + 32) as char) as u32) == (c as u32) + 32);
        }
    }
}

/// `buy` and `sell` are the only lowercase words that name a side, and they
/// name different sides.
pub proof fn lemma_side_words()
    ensures
        side_of("buy"@) == Some(Side::Buy),
        side_of("sell"@) == Some(Side::Sell),
        forall|w: Seq<char>| #[trigger] side_of(w) is Some ==> w == "buy"@ || w == "sell"@,
{
    reveal_strlit("buy");
    reveal_strlit("sell");
    assert("buy"@ != "sell"@) by {
        assert("buy"@.len() != "sell"@.len());
    }
}

/// The error text for a word `s` that names no side.
pub open spec fn side_message(s: Seq<char>) -> Seq<char> {
    "invalid side: must be 'buy' or 'sell', got '"@ + s + "'"@
}

/// Decides the side from `lower`, the lowercased form of the word `s` the
/// client sent: `buy` or `sell`, or else a 400 reply that quotes `s`.
pub fn side_from_lowercase(lower: &String, s: &str) -> (res: Result<Side, (u16, ApiResponse<serde_json::Value>)>)
    ensures
        side_of(lower@) matches Some(side) ==> res == Ok::<Side, (u16, ApiResponse<serde_json::Value>)>(side),
        side_of(lower@) is None ==> (res matches Err(reply) && reply.0 == STATUS_BAD_REQUEST
            && is_failure(reply.1, side_message(s@)) && is_consistent(reply.0, reply.1)),
{
    let buy = String::from_str("buy");
    let sell = String::from_str("sell");
    if *lower == buy {
        Ok(Side::Buy)
    } else if *lower == sell {
        Ok(Side::Sell)
    } else {
        let mut msg = String::from_str("invalid side: must be 'buy' or 'sell', got '");
        msg.append(s);
        msg.append("'");
        Err(bad_request(msg))
    }
}

/// Parses an order side, ignoring case (for ASCII text, exactly the case of
/// the letters `A`..=`Z`): a word whose lowercase form is `buy`
/// or `sell`; anything else is answered with a 400 reply that quotes it.
pub fn parse_side(s: &str) -> (res: Result<Side, (u16, ApiResponse<serde_json::Value>)>)
    ensures
        is_ascii_text(s@) ==> side_of(str_to_lowercase(s@)) == side_of(ascii_lowercase(s@)),
        side_of(str_to_lowercase(s@)) matches Some(side) ==> res == Ok::<
            Side,
            (u16, ApiResponse<serde_json::Value>),
        >(side),
        side_of(str_to_lowercase(s@)) is None ==> (res matches Err(reply) && reply.0
            == STATUS_BAD_REQUEST && is_failure(reply.1, side_message(s@))
            && is_consistent(reply.0, reply.1)),
{
    let lower = lowercase(s);
    side_from_lowercase(&lower, s)
}

} // verus!
