//! What the two fetch operations decide once the HTTP exchange is over, and
//! the texts that cross the command boundary.
//!
//! The host performs the GET (with [`USER_AGENT`] and an
//! `Accept: application/json` header) and hands over the status code and the
//! full body text; a transport failure becomes [`FetchError::Network`].
use vstd::prelude::*;
use crate::ge_api::{
    FiveMinResponse, ItemMapping, catalog_of, snapshot_of, decode_item_mapping,
    decode_latest_prices,
};

verus! {

/// The price-snapshot endpoint.
pub const FIVE_MIN_URL: &'static str = "https://prices.runescape.wiki/api/v1/osrs/1h";

/// The item-mapping endpoint.
pub const MAPPING_URL: &'static str = "https://prices.runescape.wiki/api/v1/osrs/mapping";

/// The client tag sent as `User-Agent`.
pub const USER_AGENT: &'static str = "osrs-ge-tracker";

/// How many characters of a response body the diagnostics show.
pub const PREVIEW_CHARS: usize = 100;

/// Why a fetch failed.
#[derive(Clone, Debug, PartialEq, Eq)]
pub enum FetchError {
    /// The request never got a response: connection, DNS or timeout.
    Network(String),
    /// The server answered with a status outside 200..=299.
    HttpStatus(u16),
    /// The body did not have the expected shape; carries the endpoint.
    Decode(String),
}

/// A status in the 2xx class.
pub open spec fn is_success_status(code: u16) -> bool {
    200 <= code <= 299
}

/// The decimal digit `d`.
pub open spec fn digit_char(d: nat) -> char {
    if d == 0 {
        '0'
    } else if d == 1 {
        '1'
    } else if d == 2 {
        '2'
    } else if d == 3 {
        '3'
    } else if d == 4 {
        '4'
    } else if d == 5 {
        '5'
    } else if d == 6 {
        '6'
    } else if d == 7 {
        '7'
    } else if d == 8 {
        '8'
    } else {
        '9'
    }
}

/// `n` written in decimal, without leading zeros.
pub open spec fn decimal_of(n: nat) -> Seq<char>
    decreases n,
{
    if n < 10 {
        seq![digit_char(n)]
    } else {
        decimal_of(n / 10).push(digit_char(n % 10))
    }
}

impl FetchError {
    /// The description of the failure.
    pub open spec fn text(&self) -> Seq<char> {
        match self {
            FetchError::Network(d) => "network error: "@ + d@,
            FetchError::HttpStatus(c) => "HTTP status "@ + decimal_of(*c as nat),
            FetchError::Decode(url) => "could not decode the response from "@ + url@,
        }
    }

    /// Describes the failure.
    pub fn message(&self) -> (r: String)
        ensures
            r@ == self.text(),
    {
        match self {
            FetchError::Network(d) => {
                let mut s = String::from_str("network error: ");
                s.append(d.as_str());
                s
            },
            FetchError::HttpStatus(c) => {
                let mut s = String::from_str("HTTP status ");
                let digits = decimal(*c as u64);
                s.append(digits.as_str());
                s
            },
            FetchError::Decode(url) => {
                let mut s = String::from_str("could not decode the response from ");
                s.append(url.as_str());
                s
            },
        }
    }
}

/// The single digit `d` as text.
fn digit_text(d: u64) -> (r: &'static str)
    requires
        d < 10,
    ensures
        r@ == seq![digit_char(d as nat)],
{
    proof {
        reveal_strlit("0");
        reveal_strlit("1");
        reveal_strlit("2");
        reveal_strlit("3");
        reveal_strlit("4");
        reveal_strlit("5");
        reveal_strlit("6");
        reveal_strlit("7");
        reveal_strlit("8");
        reveal_strlit("9");
    }
    if d == 0 {
        "0"
    } else if d == 1 {
        "1"
    } else if d == 2 {
        "2"
    } else if d == 3 {
        "3"
    } else if d == 4 {
        "4"
    } else if d == 5 {
        "5"
    } else if d == 6 {
        "6"
    } else if d == 7 {
        "7"
    } else if d == 8 {
        "8"
    } else {
        "9"
    }
}

/// Writes `n` in decimal.
pub fn decimal(n: u64) -> (r: String)
    ensures
        r@ == decimal_of(n as nat),
    decreases n,
{
    if n < 10 {
        String::from_str(digit_text(n))
    } else {
        let mut s = decimal(n / 10);
        s.append(digit_text(n % 10));
        s
    }
}

/// Accepts a 2xx status; any other becomes `HttpStatus` with that code.
pub fn check_status(status: u16) -> (r: Result<(), FetchError>)
    ensures
        r is Ok <==> is_success_status(status),
        r matches Err(e) ==> e == FetchError::HttpStatus(status),
{
    if 200 <= status && status <= 299 {
        Ok(())
    } else {
        Err(FetchError::HttpStatus(status))
    }
}

/// The outcome of the price-snapshot fetch, given the response status and
/// body: the status is checked first, then the body is decoded.
pub fn finish_latest_prices(status: u16, body: &str) -> (r: Result<FiveMinResponse, FetchError>)
    ensures
        !is_success_status(status) ==> r == Err::<FiveMinResponse, FetchError>(
            FetchError::HttpStatus(status),
        ),
        is_success_status(status) && snapshot_of(body@) is None ==> (r matches Err(
            FetchError::Decode(url),
        ) && url@ == FIVE_MIN_URL@),
        is_success_status(status) && body@.len() == 0 ==> (r matches Err(FetchError::Decode(url))
            && url@ == FIVE_MIN_URL@),
        is_success_status(status) && snapshot_of(body@) is Some ==> (r matches Ok(s) && Some(s@)
            == snapshot_of(body@) && s.wf()),
{
    match check_status(status) {
        Err(e) => Err(e),
        Ok(()) => match decode_latest_prices(body) {
            Some(s) => Ok(s),
            None => Err(FetchError::Decode(String::from_str(FIVE_MIN_URL))),
        },
    }
}

/// The outcome of the item-catalog fetch, given the response status and body.
pub fn finish_item_mapping(status: u16, body: &str) -> (r: Result<Vec<ItemMapping>, FetchError>)
    ensures
        !is_success_status(status) ==> r == Err::<Vec<ItemMapping>, FetchError>(
            FetchError::HttpStatus(status),
        ),
        is_success_status(status) && catalog_of(body@) is None ==> (r matches Err(
            FetchError::Decode(url),
        ) && url@ == MAPPING_URL@),
        is_success_status(status) && body@.len() == 0 ==> (r matches Err(FetchError::Decode(url))
            && url@ == MAPPING_URL@),
        is_success_status(status) && catalog_of(body@) is Some ==> (r matches Ok(v) && Some(
            v@.map_values(|it: ItemMapping| it@),
        ) == catalog_of(body@)),
{
    match check_status(status) {
        Err(e) => Err(e),
        Ok(()) => match decode_item_mapping(body) {
            Some(v) => Ok(v),
            None => Err(FetchError::Decode(String::from_str(MAPPING_URL))),
        },
    }
}

/// The failure text handed across the command boundary.
pub fn command_error(e: &FetchError) -> (r: String)
    ensures
        r@ == "Error: "@ + e.text(),
{
    let mut s = String::from_str("Error: ");
    let m = e.message();
    s.append(m.as_str());
    s
}

/// The summary handed across the command boundary after a snapshot fetch.
pub fn fetch_summary(snapshot: &FiveMinResponse) -> (r: String)
    ensures
        r@ == "Fetched "@ + decimal_of(snapshot@.prices.len()) + " items."@,
{
    let mut s = String::from_str("Fetched ");
    let n = decimal(snapshot.data.len() as u64);
    s.append(n.as_str());
    s.append(" items.");
    s
}

/// The start of a response body shown in diagnostics: its first
/// `PREVIEW_CHARS` characters, or all of it when shorter.
pub fn body_preview(body: &str) -> (r: &str)
    ensures
        body@.len() <= PREVIEW_CHARS ==> r@ == body@,
        body@.len() > PREVIEW_CHARS ==> r@ == body@.subrange(0, PREVIEW_CHARS as int),
{
    let n = body.unicode_len();
    if n <= PREVIEW_CHARS {
        assert(body@.subrange(0, n as int) =~= body@);
        body.substring_char(0, n)
    } else {
        body.substring_char(0, PREVIEW_CHARS)
    }
}

} // verus!
