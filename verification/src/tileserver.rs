//! The tile HTTP route: parses the tile coordinate's `y` component from
//! the request path and maps lookup results onto transport responses.
//!
//! The route itself is a thin adapter with no independent state; the
//! transport and the router live with the hosting application.

use vstd::prelude::*;
use vstd::string::StrSliceExecFns;

use crate::error::Error;
use crate::pathutil::{is_suffix_of, str_eq};

verus! {

pub open spec fn is_decimal_digit(c: char) -> bool {
    48 <= (c as u32) && (c as u32) <= 57
}

pub open spec fn all_decimal_digits(s: Seq<char>) -> bool {
    forall|i: int| 0 <= i < s.len() ==> is_decimal_digit(s[i])
}

/// The number a sequence of decimal digits denotes.
pub open spec fn seq_digits_value(s: Seq<char>) -> int
    decreases s.len(),
{
    if s.len() == 0 {
        0
    } else {
        seq_digits_value(s.drop_last()) * 10 + ((s.last() as u32) - 48)
    }
}

/// The characters that must all be digits: everything after an optional
/// leading plus sign.
pub open spec fn spec_digit_part(s: Seq<char>) -> Seq<char> {
    if s.len() > 0 && s[0] == '+' {
        s.subrange(1, s.len() as int)
    } else {
        s
    }
}

/// What a string parses to as an unsigned 32-bit integer: an optional
/// leading plus sign, then at least one decimal digit and nothing else,
/// denoting a value that fits.
pub open spec fn spec_parse_u32(s: Seq<char>) -> Option<u32> {
    let digits = spec_digit_part(s);
    if digits.len() > 0 && all_decimal_digits(digits) && seq_digits_value(digits) <= u32::MAX {
        Some(seq_digits_value(digits) as u32)
    } else {
        None
    }
}

proof fn lemma_digits_value_nonneg(s: Seq<char>)
    requires
        all_decimal_digits(s),
    ensures
        seq_digits_value(s) >= 0,
    decreases s.len(),
{
    if s.len() > 0 {
        assert(all_decimal_digits(s.drop_last()));
        lemma_digits_value_nonneg(s.drop_last());
    }
}

proof fn lemma_digits_value_monotone(s: Seq<char>, k: int)
    requires
        all_decimal_digits(s),
        0 <= k <= s.len(),
    ensures
        seq_digits_value(s.subrange(0, k)) <= seq_digits_value(s),
    decreases s.len() - k,
{
    if k == s.len() {
        assert(s.subrange(0, k) =~= s);
    } else {
        let t = s.subrange(0, k + 1);
        assert(t.drop_last() =~= s.subrange(0, k));
        assert(all_decimal_digits(s.subrange(0, k)));
        lemma_digits_value_nonneg(s.subrange(0, k));
        assert(seq_digits_value(t) == seq_digits_value(s.subrange(0, k)) * 10 + ((t.last()
            as u32) - 48));
        lemma_digits_value_monotone(s, k + 1);
    }
}

/// Parses a decimal unsigned 32-bit integer: an optional leading plus
/// sign, then only digits, rejecting the empty digit string and values
/// that do not fit.
pub fn parse_decimal_u32(s: &str) -> (r: Option<u32>)
    ensures
        r == spec_parse_u32(s@),
{
    let m = s.unicode_len();
    let mut start: usize = 0;
    if m > 0 && s.get_char(0) == '+' {
        start = 1;
    }
    let ghost digits = spec_digit_part(s@);
    if m == start {
        return None;
    }
    let mut acc: u64 = 0;
    let mut i: usize = start;
    while i < m
        invariant
            start <= i <= m,
            m == s@.len(),
            start == 1 <==> (s@.len() > 0 && s@[0] == '+'),
            start <= 1,
            digits == spec_digit_part(s@),
            digits.len() == m - start,
            forall|j: int| 0 <= j < digits.len() ==> digits[j] == s@[j + start],
            forall|j: int| 0 <= j < i - start ==> is_decimal_digit(digits[j]),
            acc == seq_digits_value(digits.subrange(0, i - start)),
            acc <= u32::MAX,
        decreases m - i,
    {
        let c = s.get_char(i);
        let u = c as u32;
        if u < 48 || u > 57 {
            proof {
                assert(!is_decimal_digit(digits[i - start]));
            }
            return None;
        }
        let d = (u - 48) as u64;
        let next = acc * 10 + d;
        proof {
            assert(digits.subrange(0, i - start + 1).drop_last() =~= digits.subrange(
                0,
                i - start,
            ));
            assert(digits.subrange(0, i - start + 1).last() == digits[i - start]);
            assert(seq_digits_value(digits.subrange(0, i - start + 1)) == next);
        }
        if next > 0xffff_ffff {
            proof {
                if all_decimal_digits(digits) {
                    lemma_digits_value_monotone(digits, i - start + 1);
                }
            }
            return None;
        }
        acc = next;
        i = i + 1;
    }
    proof {
        assert(digits.subrange(0, (m - start) as int) =~= digits);
    }
    Some(acc as u32)
}

/// The `y` request-path segment parses when it carries the tile-data
/// extension and its stem is a decimal unsigned integer.
pub open spec fn spec_parse_y_with_extension(s: Seq<char>) -> Option<u32> {
    if is_suffix_of(".pbf"@, s) {
        spec_parse_u32(s.subrange(0, s.len() - 4))
    } else {
        None
    }
}

/// Strips the `.pbf` extension from the `y` request-path segment and
/// parses the stem; a missing extension or a malformed number rejects the
/// request.
pub fn parse_y_with_extension(s: &str) -> (r: Option<u32>)
    ensures
        r == spec_parse_y_with_extension(s@),
{
    proof {
        reveal_strlit(".pbf");
    }
    let m = s.unicode_len();
    if m < 4 {
        return None;
    }
    let suf = s.substring_char(m - 4, m);
    if !str_eq(suf, ".pbf") {
        return None;
    }
    let stem = s.substring_char(0, m - 4);
    parse_decimal_u32(stem)
}

/// What the tile route answers.
#[derive(Debug)]
pub enum TileRouteResponse {
    /// The tile bytes, served with the fixed content type and encoding.
    Tile(Vec<u8>),
    /// The coordinate in the request path is malformed.
    BadRequest,
    /// No registered source has the tile.
    NotFound,
    /// A source failed while being read.
    ServerError,
}

impl TileRouteResponse {
    pub open spec fn spec_status(&self) -> u16 {
        match self {
            TileRouteResponse::Tile(_) => 200,
            TileRouteResponse::BadRequest => 400,
            TileRouteResponse::NotFound => 404,
            TileRouteResponse::ServerError => 500,
        }
    }

    /// The HTTP status this response is sent with.
    pub fn status_code(&self) -> (r: u16)
        ensures
            r == self.spec_status(),
    {
        match self {
            TileRouteResponse::Tile(_) => 200,
            TileRouteResponse::BadRequest => 400,
            TileRouteResponse::NotFound => 404,
            TileRouteResponse::ServerError => 500,
        }
    }
}

/// The fixed content type of a served tile; the system assumes a single
/// tile format across all archives.
pub fn tile_content_type() -> (r: &'static str)
    ensures
        r@ == "application/x-protobuf"@,
{
    "application/x-protobuf"
}

/// The fixed content encoding of a served tile.
pub fn tile_content_encoding() -> (r: &'static str)
    ensures
        r@ == "gzip"@,
{
    "gzip"
}

/// Maps a collection lookup onto the route's response: a found tile is
/// served, a definite absence is not-found, and a read error is an
/// internal error without detail.
pub fn tile_lookup_response(lookup: Result<Option<Vec<u8>>, Error>) -> (r: TileRouteResponse)
    ensures
        lookup matches Ok(Some(b)) ==> (r matches TileRouteResponse::Tile(v) && v == b),
        lookup matches Ok(None) ==> r is NotFound,
        lookup is Err ==> r is ServerError,
{
    match lookup {
        Ok(Some(b)) => TileRouteResponse::Tile(b),
        Ok(None) => TileRouteResponse::NotFound,
        Err(_) => TileRouteResponse::ServerError,
    }
}

} // verus!
