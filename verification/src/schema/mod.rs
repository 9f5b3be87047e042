use base64::Engine;
use vstd::prelude::*;
use zerocopy::FromBytes;

use crate::api::ApiError;
use crate::model::cursor_key::CursorKeyId;
use crate::model::Timestamp;
use crate::resource::RepositoryError;

pub mod account;
pub mod asset;
pub mod institution;
pub mod transaction;
pub mod user;

verus! {

/// Whether every character of `s` is an ASCII digit.
pub open spec fn all_digits(s: Seq<char>) -> bool {
    forall|i: int| 0 <= i < s.len() ==> '0' <= #[trigger] s[i] <= '9'
}

/// The number that the decimal digits `s` write.
pub open spec fn digits_value(s: Seq<char>) -> int
    decreases s.len(),
{
    if s.len() == 0 {
        0
    } else {
        digits_value(s.drop_last()) * 10 + (s.last() as int - '0' as int)
    }
}

/// The `i64` that `s` writes in decimal, as `str::parse::<i64>` reads it:
/// an optional `+` or `-`, then at least one digit and nothing else, of a
/// value that fits.
pub open spec fn spec_parse_i64(s: Seq<char>) -> Option<i64> {
    let signed = s.len() > 0 && (s[0] == '+' || s[0] == '-');
    let digits = if signed {
        s.drop_first()
    } else {
        s
    };
    let value = if signed && s[0] == '-' {
        -digits_value(digits)
    } else {
        digits_value(digits)
    };
    if digits.len() == 0 || !all_digits(digits) || value < i64::MIN || value > i64::MAX {
        None
    } else {
        Some(value as i64)
    }
}

/// A longer run of digits writes a number at least as large.
proof fn lemma_digits_value_grows(s: Seq<char>, k: int, j: int)
    requires
        0 <= k <= j <= s.len(),
        all_digits(s),
    ensures
        0 <= digits_value(s.take(k)) <= digits_value(s.take(j)),
    decreases j - k,
{
    if k < j {
        lemma_digits_value_grows(s, k, j - 1);
        assert(s.take(j).drop_last() =~= s.take(j - 1));
        lemma_digits_value_nonnegative(s.take(j - 1));
    } else {
        lemma_digits_value_nonnegative(s.take(k));
    }
}

proof fn lemma_digits_value_nonnegative(s: Seq<char>)
    requires
        all_digits(s),
    ensures
        digits_value(s) >= 0,
    decreases s.len(),
{
    if s.len() > 0 {
        assert(all_digits(s.drop_last()));
        lemma_digits_value_nonnegative(s.drop_last());
    }
}

/// Parses a decimal `i64` as `str::parse::<i64>` does.
pub fn parse_i64(text: &str) -> (r: Option<i64>)
    ensures
        r == spec_parse_i64(text@),
{
    let n = text.unicode_len();
    let mut start: usize = 0;
    let mut negative = false;
    if n > 0 {
        let c = text.get_char(0);
        if c == '+' || c == '-' {
            start = 1;
            negative = c == '-';
        }
    }
    let ghost s = text@;
    let ghost signed = s.len() > 0 && (s[0] == '+' || s[0] == '-');
    let ghost digits = if signed {
        s.drop_first()
    } else {
        s
    };
    assert(signed == (start == 1));
    assert(negative == (signed && s[0] == '-'));
    assert(digits =~= s.subrange(start as int, n as int));
    if start == n {
        return None;
    }
    let bound: i128 = 0x8000_0000_0000_0000;
    let mut acc: i128 = 0;
    let mut i = start;
    assert(digits.take(0) =~= Seq::<char>::empty());
    while i < n
        invariant
            n == s.len(),
            s == text@,
            start <= i <= n,
            digits == s.subrange(start as int, n as int),
            forall|k: int| 0 <= k < i - start ==> '0' <= #[trigger] digits[k] <= '9',
            acc == digits_value(digits.take(i - start)),
            0 <= acc <= bound,
            bound == 0x8000_0000_0000_0000,
            signed == (s.len() > 0 && (s[0] == '+' || s[0] == '-')),
            signed == (start == 1),
            negative == (signed && s[0] == '-'),
            digits == (if signed {
                s.drop_first()
            } else {
                s
            }),
        decreases n - i,
    {
        let c = text.get_char(i);
        if !('0' <= c && c <= '9') {
            assert(!all_digits(digits)) by {
                assert(digits[i - start] == c);
            }
            return None;
        }
        let d = (c as u32 - '0' as u32) as i128;
        proof {
            assert(digits.take(i - start + 1).drop_last() =~= digits.take(i - start));
            assert(digits.take(i - start + 1).last() == c);
        }
        acc = acc * 10 + d;
        i = i + 1;
        if acc > bound {
            proof {
                assert(all_digits(digits) ==> digits_value(digits) >= acc) by {
                    if all_digits(digits) {
                        lemma_digits_value_grows(digits, i - start, digits.len() as int);
                        assert(digits.take(digits.len() as int) =~= digits);
                    }
                }
            }
            return None;
        }
    }
    assert(digits.take(n - start) =~= digits);
    assert(all_digits(digits));
    if negative {
        Some((0 - acc) as i64)
    } else if acc == bound {
        None
    } else {
        Some(acc as i64)
    }
}

/// The bytes that the URL-safe, unpadded base64 engine of the `base64`
/// crate decodes from a text, or `None` when the text is not such base64.
pub uninterp spec fn url_safe_decoded(text: Seq<char>) -> Option<Seq<u8>>;

/// Decodes `text` with `base64`'s general-purpose engine on the URL-safe
/// alphabet without padding. The contract says only that the outcome is
/// `url_safe_decoded` of the text.
#[verifier::external_body]
fn decode_url_safe(text: &str) -> (r: Option<Vec<u8>>)
    ensures
        r matches Some(b) ==> url_safe_decoded(text@) == Some(b@),
        r is None ==> url_safe_decoded(text@) is None,
{
    let engine = base64::engine::GeneralPurpose::new(
        &base64::alphabet::URL_SAFE,
        base64::engine::general_purpose::NO_PAD,
    );
    engine.decode(text).ok()
}

/// The `i32` whose two's-complement bytes, least significant first, are
/// the four bytes `b`.
pub open spec fn le_i32(b: Seq<u8>) -> int {
    let u = b[0] as int + 256 * b[1] as int + 65536 * b[2] as int + 16777216 * b[3] as int;
    if u >= 0x8000_0000 {
        u - 0x1_0000_0000
    } else {
        u
    }
}

/// The `i32` whose two's-complement bytes, most significant first, are the
/// four bytes `b`.
pub open spec fn be_i32(b: Seq<u8>) -> int {
    le_i32(seq![b[3], b[2], b[1], b[0]])
}

/// Reads an `i32` from bytes with zerocopy's `FromBytes::read_from_bytes`,
/// which copies exactly four bytes into the integer and refuses any other
/// length. The integer's bytes are in the machine's byte order, little- or
/// big-endian; which one is left unsaid.
#[verifier::external_body]
fn read_i32(bytes: &[u8]) -> (r: Option<i32>)
    ensures
        bytes@.len() != 4 ==> r is None,
        bytes@.len() == 4 ==> r is Some,
        r matches Some(k) ==> k == le_i32(bytes@) || k == be_i32(bytes@),
{
    i32::read_from_bytes(bytes).ok()
}

/// The text that `urlencoding::decode` reads from a URL-encoded text, or
/// `None` when the decoded bytes are not UTF-8.
pub uninterp spec fn url_decoding(text: Seq<char>) -> Option<Seq<char>>;

/// The instant, in microseconds since the Unix epoch, that chrono's
/// `DateTime::parse_from_rfc3339` reads from a text, or `None` when the
/// text is not an RFC 3339 date and time.
pub uninterp spec fn rfc3339_instant(text: Seq<char>) -> Option<i64>;

/// The RFC 3339 text that chrono's `DateTime::to_rfc3339` writes for an
/// instant in microseconds since the Unix epoch, or `None` when chrono
/// cannot represent the instant.
pub uninterp spec fn rfc3339_text(micros: i64) -> Option<Seq<char>>;

/// Decodes a URL-encoded text with `urlencoding::decode`. The contract
/// says only that the outcome is `url_decoding` of the text.
#[verifier::external_body]
fn decode_url(text: &str) -> (r: Option<String>)
    ensures
        r matches Some(d) ==> url_decoding(text@) == Some(d@),
        r is None ==> url_decoding(text@) is None,
{
    match urlencoding::decode(text) {
        Ok(decoded) => Some(decoded.into_owned()),
        Err(_) => None,
    }
}

/// Reads an RFC 3339 date and time with chrono's
/// `DateTime::parse_from_rfc3339`, as microseconds since the epoch. The
/// contract says only that the outcome is `rfc3339_instant` of the text.
#[verifier::external_body]
fn parse_rfc3339(text: &str) -> (r: Option<i64>)
    ensures
        r == rfc3339_instant(text@),
{
    match chrono::DateTime::parse_from_rfc3339(text) {
        Ok(d) => Some(d.timestamp_micros()),
        Err(_) => None,
    }
}

/// Writes an instant with chrono's `DateTime::to_rfc3339`. The contract
/// says only that the outcome is `rfc3339_text` of the instant.
#[verifier::external_body]
fn format_rfc3339(micros: i64) -> (r: Option<String>)
    ensures
        r matches Some(t) ==> rfc3339_text(micros) == Some(t@),
        r is None ==> rfc3339_text(micros) is None,
{
    match chrono::DateTime::from_timestamp_micros(micros) {
        Some(d) => Some(d.to_rfc3339()),
        None => None,
    }
}

/// Why a request parameter could not be read.
#[derive(Debug, Clone, Copy, PartialEq, Eq, Structural)]
pub enum ParamError {
    /// The parameter is not valid URL encoding of UTF-8 text.
    UrlEncoding,
    /// The parameter is not an RFC 3339 date and time.
    DateTime,
}

/// A text parameter after URL decoding: the decoded text, or an error when
/// it did not decode.
pub fn url_param_of(decoded: Option<String>) -> (r: Result<String, ParamError>)
    ensures
        decoded matches Some(d) ==> (r matches Ok(s) && s@ == d@),
        decoded is None ==> r == Err::<String, ParamError>(ParamError::UrlEncoding),
{
    match decoded {
        Some(d) => Ok(d),
        None => Err(ParamError::UrlEncoding),
    }
}

/// A URL-encoded text parameter, decoded.
pub fn url_encoded_param(value: &str) -> (r: Result<String, ParamError>)
    ensures
        url_decoding(value@) matches Some(d) ==> (r matches Ok(s) && s@ == d),
        url_decoding(value@) is None ==> r == Err::<String, ParamError>(ParamError::UrlEncoding),
{
    url_param_of(decode_url(value))
}

/// An optional URL-encoded text parameter, decoded when present.
pub fn optional_url_encoded_param(value: Option<String>) -> (r: Result<Option<String>, ParamError>)
    ensures
        value is None ==> r matches Ok(None),
        value matches Some(v) ==> match url_decoding(v@) {
            Some(d) => r matches Ok(Some(s)) && s@ == d,
            None => r == Err::<Option<String>, ParamError>(ParamError::UrlEncoding),
        },
{
    match value {
        None => Ok(None),
        Some(v) => match url_encoded_param(v.as_str()) {
            Ok(d) => Ok(Some(d)),
            Err(e) => Err(e),
        },
    }
}

/// A date and time parameter after reading: the instant, or an error when
/// the text was not RFC 3339.
pub fn datetime_of(instant: Option<i64>) -> (r: Result<Timestamp, ParamError>)
    ensures
        instant matches Some(m) ==> r == Ok::<Timestamp, ParamError>(Timestamp(m)),
        instant is None ==> r == Err::<Timestamp, ParamError>(ParamError::DateTime),
{
    match instant {
        Some(m) => Ok(Timestamp(m)),
        None => Err(ParamError::DateTime),
    }
}

/// A date and time parameter in RFC 3339.
pub fn datetime_param(value: &str) -> (r: Result<Timestamp, ParamError>)
    ensures
        rfc3339_instant(value@) matches Some(m) ==> r == Ok::<Timestamp, ParamError>(Timestamp(m)),
        rfc3339_instant(value@) is None ==> r == Err::<Timestamp, ParamError>(ParamError::DateTime),
{
    datetime_of(parse_rfc3339(value))
}

/// An optional date and time parameter: URL-encoded RFC 3339 when present.
pub fn optional_datetime_param(value: Option<String>) -> (r: Result<Option<Timestamp>, ParamError>)
    ensures
        value is None ==> r matches Ok(None),
        value matches Some(v) ==> match url_decoding(v@) {
            None => r == Err::<Option<Timestamp>, ParamError>(ParamError::UrlEncoding),
            Some(d) => match rfc3339_instant(d) {
                Some(m) => r == Ok::<Option<Timestamp>, ParamError>(Some(Timestamp(m))),
                None => r == Err::<Option<Timestamp>, ParamError>(ParamError::DateTime),
            },
        },
{
    match value {
        None => Ok(None),
        Some(v) => {
            let decoded = match url_encoded_param(v.as_str()) {
                Ok(d) => d,
                Err(e) => {
                    return Err(e);
                },
            };
            match datetime_param(decoded.as_str()) {
                Ok(t) => Ok(Some(t)),
                Err(e) => Err(e),
            }
        },
    }
}

/// The RFC 3339 text of an instant, as responses write it.
pub fn datetime_text(t: Timestamp) -> (r: Option<String>)
    ensures
        r matches Some(s) ==> rfc3339_text(t.0) == Some(s@),
        r is None ==> rfc3339_text(t.0) is None,
{
    format_rfc3339(t.0)
}

/// A position in a list.
#[derive(Debug, Default, Clone, Copy, PartialEq, Eq, Structural)]
pub struct Cursor {
    pub offset: i64,
}

/// Which page of a list a request asks for.
#[derive(Debug, Default, Clone, Copy, PartialEq, Eq, Structural)]
pub struct Pagination {
    /// The maximum items to return
    pub max_items: Option<i64>,
    /// The request cursor
    pub cursor: Option<Cursor>,
}

/// The cursor part of a request before its key is known: the id of the
/// key that encrypted it, and all its bytes.
#[derive(Debug)]
pub struct EncryptedCursor {
    pub key_id: CursorKeyId,
    pub bytes: Vec<u8>,
}

impl Pagination {
    /// The offset of the page: that of the cursor, or 0 without one.
    pub open spec fn spec_offset(&self) -> i64 {
        match self.cursor {
            Some(c) => c.offset,
            None => 0,
        }
    }

    /// The offset of the page: that of the cursor, or 0 without one.
    pub fn offset(&self) -> (o: i64)
        ensures
            o == self.spec_offset(),
    {
        match self.cursor {
            Some(c) => c.offset,
            None => 0,
        }
    }

    /// The cursor of the page after one that returned `results` rows: none
    /// after an empty page, else the offset past the rows returned.
    pub fn next_cursor(&self, results: usize) -> (c: Option<Cursor>)
        requires
            results <= i64::MAX,
            self.spec_offset() + results <= i64::MAX,
        ensures
            results == 0 ==> c is None,
            results > 0 ==> c == Some(Cursor { offset: (self.spec_offset() + results) as i64 }),
    {
        if results == 0 {
            None
        } else {
            Some(Cursor { offset: self.offset() + results as i64 })
        }
    }

    /// The offset of the page before this one: `max_items` (100 by
    /// default) earlier, but never before the start.
    pub open spec fn spec_prev_offset(&self) -> i64 {
        let step: int = match self.max_items {
            Some(m) => m as int,
            None => 100,
        };
        let back = self.spec_offset() - step;
        let saturated: int = if back < i64::MIN {
            i64::MIN as int
        } else if back > i64::MAX {
            i64::MAX as int
        } else {
            back
        };
        if saturated < 0 {
            0
        } else {
            saturated as i64
        }
    }

    /// The cursor of the page before this one: none on the first page.
    pub fn prev_cursor(&self) -> (c: Option<Cursor>)
        ensures
            self.spec_offset() == 0 ==> c is None,
            self.spec_offset() != 0 ==> c == Some(Cursor { offset: self.spec_prev_offset() }),
    {
        let offset = self.offset();
        if offset == 0 {
            None
        } else {
            let step = match self.max_items {
                Some(m) => m,
                None => 100,
            };
            let back: i128 = offset as i128 - step as i128;
            let saturated: i64 = if back < i64::MIN as i128 {
                i64::MIN
            } else if back > i64::MAX as i128 {
                i64::MAX
            } else {
                back as i64
            };
            Some(Cursor { offset: if saturated < 0 { 0 } else { saturated } })
        }
    }

    /// The page size a request asks for: absent, or a decimal `i64`.
    pub fn parse_max_items(value: Option<&str>) -> (r: Result<Option<i64>, ApiError>)
        ensures
            value is None ==> r == Ok::<Option<i64>, ApiError>(None),
            value matches Some(v) ==> match spec_parse_i64(v@) {
                Some(n) => r == Ok::<Option<i64>, ApiError>(Some(n)),
                None => r matches Err(ApiError::ClientError(m)) && m@ == "Could not parse max items."@,
            },
    {
        match value {
            None => Ok(None),
            Some(v) => match parse_i64(v) {
                Some(n) => Ok(Some(n)),
                None => Err(ApiError::ClientError("Could not parse max items.".to_owned())),
            },
        }
    }

    /// The key id and bytes of a cursor, given the key id read from its
    /// first four bytes: a cursor shorter than 16 bytes, or whose key id
    /// cannot be read, is invalid.
    pub fn cursor_parts(bytes: Vec<u8>, key_id: Option<i32>) -> (r: Result<EncryptedCursor, ApiError>)
        ensures
            bytes@.len() < 16 ==> (r matches Err(ApiError::ClientError(m)) && m@ == "Invalid cursor."@),
            bytes@.len() >= 16 && key_id is None ==> (r matches Err(ApiError::ClientError(m)) && m@
                == "Invalid cursor."@),
            key_id matches Some(k) ==> (bytes@.len() >= 16 ==> (r matches Ok(c) && c.key_id == CursorKeyId(k)
                && c.bytes@ == bytes@)),
    {
        if bytes.len() < 16 {
            return Err(ApiError::ClientError("Invalid cursor.".to_owned()));
        }
        match key_id {
            None => Err(ApiError::ClientError("Invalid cursor.".to_owned())),
            Some(k) => Ok(EncryptedCursor { key_id: CursorKeyId(k), bytes }),
        }
    }

    /// Reads the cursor parameter of a request: URL-safe base64 without
    /// padding, of at least 16 bytes, the first four of which hold the id of
    /// the key that encrypted it.
    pub fn decode_cursor(text: &str) -> (r: Result<EncryptedCursor, ApiError>)
        ensures
            url_safe_decoded(text@) is None ==> (r matches Err(ApiError::ClientError(m)) && m@
                == "Invalid cursor."@),
            url_safe_decoded(text@) matches Some(b) ==> (b.len() < 16 ==> (r matches Err(
                ApiError::ClientError(m),
            ) && m@ == "Invalid cursor."@)),
            url_safe_decoded(text@) matches Some(b) ==> (b.len() >= 16 ==> (r matches Ok(c) && c.bytes@ == b
                && (c.key_id.0 == le_i32(b.take(4)) || c.key_id.0 == be_i32(b.take(4))))),
            r matches Ok(c) ==> url_safe_decoded(text@) == Some(c.bytes@) && c.bytes@.len() >= 16,
    {
        let bytes = match decode_url_safe(text) {
            Some(b) => b,
            None => {
                return Err(ApiError::ClientError("Invalid cursor.".to_owned()));
            },
        };
        if bytes.len() < 16 {
            return Err(ApiError::ClientError("Invalid cursor.".to_owned()));
        }
        let mut head: Vec<u8> = Vec::new();
        let mut i: usize = 0;
        while i < 4
            invariant
                i <= 4,
                bytes@.len() >= 16,
                head@ == bytes@.take(i as int),
            decreases 4 - i,
        {
            head.push(bytes[i]);
            i = i + 1;
            assert(head@ =~= bytes@.take(i as int));
        }
        let key_id = read_i32(head.as_slice());
        Self::cursor_parts(bytes, key_id)
    }

    /// The answer when the key of a cursor cannot be read: a missing key
    /// makes the cursor invalid, any other failure is the server's.
    pub fn cursor_key_error(error: RepositoryError) -> (r: ApiError)
        ensures
            error is NotFound ==> (r matches ApiError::ClientError(m) && m@ == "Invalid cursor."@),
            error is Sqlx ==> r is ServerError,
    {
        match error {
            RepositoryError::NotFound => ApiError::ClientError("Invalid cursor.".to_owned()),
            RepositoryError::Sqlx(_) => ApiError::ServerError,
        }
    }
}

/// The page after a non-empty page starts past it, and the page before a
/// page never starts before the list does, nor after the page itself when
/// pages have a non-negative size.
pub proof fn lemma_cursor_bounds(p: Pagination, results: nat)
    ensures
        results > 0 ==> p.spec_offset() + results > p.spec_offset(),
        p.spec_prev_offset() >= 0,
        p.spec_offset() >= 0 && (p.max_items matches Some(m) ==> m >= 0) ==> p.spec_prev_offset()
            <= p.spec_offset(),
{
}

/// Going forward a full page of `n` rows and then back a page of `n` rows
/// returns to where one started.
pub proof fn lemma_prev_undoes_next(offset: i64, n: i64)
    requires
        0 <= offset,
        0 < n,
        offset + n <= i64::MAX,
    ensures
        (Pagination { max_items: Some(n), cursor: Some(Cursor { offset: (offset + n) as i64 }) }).spec_prev_offset()
            == offset,
{
}

/// Marks a response to a read of one record.
#[derive(Copy, Clone, Debug, Default, PartialEq, Eq, Structural)]
pub struct GetResponse;

/// Marks a record inside a list response.
#[derive(Copy, Clone, Debug, Default, PartialEq, Eq, Structural)]
pub struct GetList;

/// Marks a response to a creation.
#[derive(Copy, Clone, Debug, Default, PartialEq, Eq, Structural)]
pub struct CreateResponse;

/// Marks a response to an update.
#[derive(Copy, Clone, Debug, Default, PartialEq, Eq, Structural)]
pub struct UpdateResponse;

impl GetResponse {
    /// The HTTP status of a read: 200.
    pub fn status() -> (s: u16)
        ensures
            s == 200,
    {
        200
    }
}

impl GetList {
    /// The HTTP status of a list: 200.
    pub fn status() -> (s: u16)
        ensures
            s == 200,
    {
        200
    }
}

impl CreateResponse {
    /// The HTTP status of a creation: 201.
    pub fn status() -> (s: u16)
        ensures
            s == 201,
    {
        201
    }
}

impl UpdateResponse {
    /// The HTTP status of an update: 200.
    pub fn status() -> (s: u16)
        ensures
            s == 200,
    {
        200
    }
}

} // verus!
