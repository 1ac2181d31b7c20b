//! What the purchase-order command line computes to show an order: the URL
//! of the order's state, the bytes of the state's data, and the lines it
//! prints for the orders found there.

use vstd::prelude::*;
use vstd::string::*;
use crate::po::{PO, po_address, compute_po_address};
use crate::record::{Record, views, count_key};
use crate::text::{debug_quoted, join, quote_debug};

verus! {

/// Where the REST API serves state entries.
pub const STATE_URL_BASE: &'static str = "http://127.0.0.1:8008/state/";

/// The URL of the state entry that holds the purchase orders numbered `po_number`.
pub fn state_url(po_number: &str) -> (r: String)
    ensures
        r@ == STATE_URL_BASE@ + po_address(po_number@),
{
    let address = compute_po_address(po_number);
    join(STATE_URL_BASE, address.as_str())
}

/// The bytes that the standard base64 alphabet, with padding, encodes as
/// `text`; nothing when `text` is not such an encoding.
pub uninterp spec fn base64_decoded(text: Seq<char>) -> Option<Seq<u8>>;

/// Decodes `text` with `base64::decode` (standard alphabet, padded).
/// Trusted: the outcome is what `base64_decoded` names for `text`; the
/// decoding error itself is dropped.
#[verifier::external_body]
fn decode_base64(text: &str) -> (r: Option<Vec<u8>>)
    ensures
        match r {
            Some(bytes) => base64_decoded(text@) == Some(bytes@),
            None => base64_decoded(text@) is None,
        },
{
    base64::decode(text).ok()
}

/// The bytes of a state entry's data, which the REST API serves in base64.
pub fn state_data_bytes(data: &str) -> (r: Option<Vec<u8>>)
    ensures
        match r {
            Some(bytes) => base64_decoded(data@) == Some(bytes@),
            None => base64_decoded(data@) is None,
        },
{
    decode_base64(data)
}

/// The lines printed for the purchase orders of `list`: the quoted order
/// number once for each order numbered `po_number`.
pub fn listed_lines(po_number: &str, list: &Vec<PO>) -> (r: Vec<String>)
    ensures
        r@.len() == count_key::<PO>(views(list@), po_number@),
        forall|i: int| 0 <= i < r@.len() ==> (#[trigger] r@[i])@ == debug_quoted(po_number@),
{
    let wanted = po_number.to_string();
    let mut lines: Vec<String> = Vec::new();
    let mut i: usize = 0;
    while i < list.len()
        invariant
            wanted@ == po_number@,
            i <= list.len(),
            lines@.len() == count_key::<PO>(views(list@).take(i as int), po_number@),
            forall|j: int| 0 <= j < lines@.len() ==> (#[trigger] lines@[j])@ == debug_quoted(
                po_number@,
            ),
        decreases list.len() - i,
    {
        proof {
            assert(views(list@).take(i + 1).drop_last() =~= views(list@).take(i as int));
        }
        if *list[i].key() == wanted {
            lines.push(quote_debug(po_number));
        }
        i = i + 1;
    }
    assert(views(list@).take(i as int) =~= views(list@));
    lines
}

/// The number of fraction digits that the JSON parser counts in a 16-bit
/// exponent: a decimal point followed by this many digits or more is refused.
pub const FRACTION_LIMIT: usize = 32768;

/// An ASCII decimal digit.
pub open spec fn is_digit_byte(b: u8) -> bool {
    48 <= b && b <= 57
}

/// `bytes` holds a decimal point followed by at least `FRACTION_LIMIT` digits.
pub open spec fn has_long_fraction(bytes: Seq<u8>) -> bool {
    exists|d: int|
        0 <= d && d + FRACTION_LIMIT < bytes.len() && #[trigger] bytes[d] == 46u8 && forall|j: int|
            d < j <= d + FRACTION_LIMIT ==> is_digit_byte(#[trigger] bytes[j])
}

/// Whether `bytes` holds a decimal point followed by at least
/// `FRACTION_LIMIT` digits.
pub fn long_fraction(bytes: &[u8]) -> (r: bool)
    ensures
        r == has_long_fraction(bytes@),
{
    let mut i: usize = 0;
    let mut after_point = false;
    let mut count: usize = 0;
    while i < bytes.len()
        invariant
            i <= bytes@.len(),
            count < FRACTION_LIMIT,
            after_point ==> i >= count + 1 && bytes@[i - count - 1] == 46u8 && forall|j: int|
                i - count - 1 < j < i ==> is_digit_byte(#[trigger] bytes@[j]),
            forall|d: int|
                0 <= d < i && bytes@[d] == 46u8 && (forall|j: int|
                    d < j < i ==> is_digit_byte(#[trigger] bytes@[j])) ==> after_point && count
                    == i - d - 1,
            forall|d: int|
                0 <= d && d + FRACTION_LIMIT < i ==> !(#[trigger] bytes@[d] == 46u8 && forall|j: int|
                    d < j <= d + FRACTION_LIMIT ==> is_digit_byte(#[trigger] bytes@[j])),
        decreases bytes@.len() - i,
    {
        let b = bytes[i];
        if b == 46u8 {
            after_point = true;
            count = 0;
        } else if 48u8 <= b && b <= 57u8 && after_point {
            count = count + 1;
            if count >= FRACTION_LIMIT {
                proof {
                    let d = i - FRACTION_LIMIT;
                    assert(bytes@[d] == 46u8);
                    assert forall|j: int| d < j <= d + FRACTION_LIMIT implies is_digit_byte(
                        #[trigger] bytes@[j],
                    ) by {
                        if j < i {
                        }
                    }
                    assert(d + FRACTION_LIMIT < bytes@.len());
                }
                return true;
            }
        } else {
            after_point = false;
            count = 0;
        }
        proof {
            assert forall|d: int|
                0 <= d && d + FRACTION_LIMIT < i + 1 implies !(#[trigger] bytes@[d] == 46u8
                && forall|j: int| d < j <= d + FRACTION_LIMIT ==> is_digit_byte(#[trigger] bytes@[j])) by {
                if d + FRACTION_LIMIT == i && bytes@[d] == 46u8 && forall|j: int|
                    d < j <= d + FRACTION_LIMIT ==> is_digit_byte(#[trigger] bytes@[j]) {
                    assert(forall|j: int| d < j < i ==> is_digit_byte(#[trigger] bytes@[j]));
                }
            }
        }
        i = i + 1;
    }
    proof {
        assert forall|d: int|
            0 <= d && d + FRACTION_LIMIT < bytes@.len() implies !(#[trigger] bytes@[d] == 46u8
            && forall|j: int| d < j <= d + FRACTION_LIMIT ==> is_digit_byte(#[trigger] bytes@[j])) by {
        }
    }
    false
}

/// What a JSON response `body` holds in its member `key`: nothing when the
/// body is not JSON; otherwise the member's text when it is a string, and
/// no text when it is absent or not a string.
pub uninterp spec fn response_member(body: Seq<char>, key: Seq<char>) -> Option<Option<Seq<char>>>;

/// Parses `body` with `json::parse` and takes `[key].as_str()` of the value.
/// Trusted: the outcome is what `response_member` names for `body` and
/// `key`; the parse error itself is dropped. The parser counts the digits
/// after a decimal point down in a 16-bit exponent, which overflows when
/// there are more than 32768 of them: such bodies are left out.
#[verifier::external_body]
fn parse_response_member(body: &str, key: &str) -> (r: Option<Option<String>>)
    requires
        !has_long_fraction(body.spec_bytes()),
    ensures
        match r {
            None => response_member(body@, key@) is None,
            Some(None) => response_member(body@, key@) == Some(None::<Seq<char>>),
            Some(Some(text)) => response_member(body@, key@) == Some(Some(text@)),
        },
{
    match json::parse(body) {
        Ok(value) => Some(
            match value[key].as_str() {
                Some(text) => Some(text.to_string()),
                None => None,
            },
        ),
        Err(_) => None,
    }
}

/// The text whose base64 decoding is a response's state data: the `data`
/// member when it is a string, `None` otherwise.
pub open spec fn data_text(data: Option<Seq<char>>) -> Seq<char> {
    match data {
        Some(text) => text,
        None => "None"@,
    }
}

/// The state data carried by the REST API's JSON response `body`: nothing
/// when the body holds a decimal point followed by `FRACTION_LIMIT` digits
/// or more, or is not JSON; otherwise the base64 decoding of its `data`
/// member, or of the text `None` when that member is not a string (nothing
/// inside when that text does not decode).
pub fn state_data_of_response(body: &str) -> (r: Option<Option<Vec<u8>>>)
    ensures
        has_long_fraction(body.spec_bytes()) ==> r is None,
        !has_long_fraction(body.spec_bytes()) ==> match response_member(body@, "data"@) {
            None => r is None,
            Some(data) => match r {
                Some(Some(bytes)) => base64_decoded(data_text(data)) == Some(bytes@),
                Some(None) => base64_decoded(data_text(data)) is None,
                None => false,
            },
        },
{
    if long_fraction(body.as_bytes()) {
        return None;
    }
    match parse_response_member(body, "data") {
        None => None,
        Some(Some(text)) => Some(state_data_bytes(text.as_str())),
        Some(None) => Some(state_data_bytes("None")),
    }
}

} // verus!
