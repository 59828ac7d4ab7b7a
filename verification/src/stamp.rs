//! Identifiers and timestamps of new history items: a random version-4
//! UUID and the current time in RFC 3339. Both can fail (no random source,
//! a clock before 1970), and then there is no value.
use crate::hashing::{hex_digit, hex_lower, lemma_hex_lower_index, lemma_hex_lower_len};
use crate::text::ends_with;
use vstd::prelude::*;

verus! {

/// The system clock's time.
#[verifier::external_type_specification]
#[verifier::external_body]
pub struct ExSystemTime(std::time::SystemTime);

/// The bytes of a version-4 UUID made from 16 random bytes: the high nibble
/// of byte 6 becomes the version 4, the two high bits of byte 8 the variant
/// `10`.
pub open spec fn uuid_v4_bytes(random: Seq<u8>) -> Seq<u8> {
    random.update(6, ((random[6] % 16) + 64) as u8).update(8, ((random[8] % 64) + 128) as u8)
}

/// The hyphenated lower-case text of a version-4 UUID made from 16 random
/// bytes: groups of 4, 2, 2, 2 and 6 bytes in hexadecimal, joined by '-'.
pub open spec fn uuid_v4_text_from(random: Seq<u8>) -> Seq<char> {
    let b = uuid_v4_bytes(random);
    hex_lower(b.subrange(0, 4)) + seq!['-'] + hex_lower(b.subrange(4, 6)) + seq!['-']
        + hex_lower(b.subrange(6, 8)) + seq!['-'] + hex_lower(b.subrange(8, 10)) + seq!['-']
        + hex_lower(b.subrange(10, 16))
}

/// `s` is the text of a version-4 UUID made from some 16 bytes.
pub open spec fn is_uuid_v4_text(s: Seq<char>) -> bool {
    exists|random: Seq<u8>| random.len() == 16 && #[trigger] uuid_v4_text_from(random) == s
}

/// `c` is a lower-case hexadecimal digit.
pub open spec fn is_lower_hex_digit(c: char) -> bool {
    ('0' <= c && c <= '9') || ('a' <= c && c <= 'f')
}

/// The layout of a hyphenated version-4 UUID: 36 characters, hyphens at 8,
/// 13, 18 and 23, lower-case hexadecimal digits elsewhere, the version digit
/// '4' at 14 and the variant digit (8, 9, a or b) at 19.
pub open spec fn uuid_v4_shape(s: Seq<char>) -> bool {
    &&& s.len() == 36
    &&& forall|i: int|
        0 <= i < 36 ==> (if i == 8 || i == 13 || i == 18 || i == 23 {
            s[i] == '-'
        } else {
            is_lower_hex_digit(#[trigger] s[i])
        })
    &&& s[14] == '4'
    &&& (s[19] == '8' || s[19] == '9' || s[19] == 'a' || s[19] == 'b')
}

proof fn lemma_hex_digit_is_lower_hex(n: u8)
    requires
        n < 16,
    ensures
        is_lower_hex_digit(hex_digit(n)),
{
}

/// Every text made by `uuid_v4_text_from` from 16 bytes has the layout of a
/// version-4 UUID.
pub proof fn lemma_uuid_v4_text_shape(random: Seq<u8>)
    requires
        random.len() == 16,
    ensures
        uuid_v4_shape(uuid_v4_text_from(random)),
{
    let b = uuid_v4_bytes(random);
    let g0 = b.subrange(0, 4);
    let g1 = b.subrange(4, 6);
    let g2 = b.subrange(6, 8);
    let g3 = b.subrange(8, 10);
    let g4 = b.subrange(10, 16);
    lemma_hex_lower_len(g0);
    lemma_hex_lower_len(g1);
    lemma_hex_lower_len(g2);
    lemma_hex_lower_len(g3);
    lemma_hex_lower_len(g4);
    let s = uuid_v4_text_from(random);
    assert(s.len() == 36);
    assert(b[6] / 16 == 4) by {
        assert(b[6] == ((random[6] % 16) + 64) as u8);
    }
    assert(8 <= b[8] / 16 <= 11) by {
        assert(b[8] == ((random[8] % 64) + 128) as u8);
    }
    assert forall|i: int| 0 <= i < 36 implies (if i == 8 || i == 13 || i == 18 || i == 23 {
        s[i] == '-'
    } else {
        is_lower_hex_digit(#[trigger] s[i])
    }) by {
        if i < 8 {
            lemma_hex_lower_index(g0, i);
            lemma_hex_digit_is_lower_hex(g0[i / 2] / 16);
            lemma_hex_digit_is_lower_hex(g0[i / 2] % 16);
        } else if 8 < i < 13 {
            lemma_hex_lower_index(g1, i - 9);
            lemma_hex_digit_is_lower_hex(g1[(i - 9) / 2] / 16);
            lemma_hex_digit_is_lower_hex(g1[(i - 9) / 2] % 16);
        } else if 13 < i < 18 {
            lemma_hex_lower_index(g2, i - 14);
            lemma_hex_digit_is_lower_hex(g2[(i - 14) / 2] / 16);
            lemma_hex_digit_is_lower_hex(g2[(i - 14) / 2] % 16);
        } else if 18 < i < 23 {
            lemma_hex_lower_index(g3, i - 19);
            lemma_hex_digit_is_lower_hex(g3[(i - 19) / 2] / 16);
            lemma_hex_digit_is_lower_hex(g3[(i - 19) / 2] % 16);
        } else if 23 < i {
            lemma_hex_lower_index(g4, i - 24);
            lemma_hex_digit_is_lower_hex(g4[(i - 24) / 2] / 16);
            lemma_hex_digit_is_lower_hex(g4[(i - 24) / 2] % 16);
        }
    }
    lemma_hex_lower_index(g2, 0);
    lemma_hex_lower_index(g3, 0);
    assert(s[14] == hex_lower(g2)[0]);
    assert(s[19] == hex_lower(g3)[0]);
}

/// What holds of every RFC 3339 text of a UTC time as `to_rfc3339` writes
/// it: it ends with the offset "+00:00" and has at least the 25 characters
/// of "YYYY-MM-DDTHH:MM:SS+00:00".
pub open spec fn utc_rfc3339_text(s: Seq<char>) -> bool {
    s.len() >= 25 && ends_with(s, "+00:00"@)
}

/// Calls `getrandom::fill` on 16 bytes, the random source that
/// `uuid::Uuid::new_v4` uses. `None` when the source fails; claims nothing
/// of the bytes, which are random.
#[verifier::external_body]
fn random_bytes() -> (r: Option<[u8; 16]>) {
    let mut bytes = [0u8; 16];
    match getrandom::fill(&mut bytes) {
        Ok(()) => Some(bytes),
        Err(_) => None,
    }
}

/// Calls `uuid::Builder::from_random_bytes` and writes the UUID with
/// `to_string` (hyphenated, lower case). Claims the text that the builder's
/// source gives: the version and variant bits set, then the bytes in
/// hexadecimal groups.
#[verifier::external_body]
fn uuid_v4_from_bytes(random: [u8; 16]) -> (r: String)
    ensures
        r@ == uuid_v4_text_from(random@),
{
    uuid::Builder::from_random_bytes(random).into_uuid().to_string()
}

/// A fresh item identifier: a random version-4 UUID, or `None` when no
/// random bytes could be read.
pub fn new_item_id() -> (r: Option<String>)
    ensures
        r matches Some(s) ==> is_uuid_v4_text(s@) && uuid_v4_shape(s@),
{
    match random_bytes() {
        Some(random) => {
            let s = uuid_v4_from_bytes(random);
            assert(random@.len() == 16);
            assert(uuid_v4_text_from(random@) == s@);
            proof {
                lemma_uuid_v4_text_shape(random@);
            }
            Some(s)
        },
        None => None,
    }
}

/// Calls `std::time::SystemTime::now`. Claims nothing of the result: it is
/// the clock's reading.
#[verifier::external_body]
fn system_time_now() -> (r: std::time::SystemTime) {
    std::time::SystemTime::now()
}

/// Calls `SystemTime::duration_since` with the Unix epoch, and reads the
/// duration's whole seconds and nanoseconds. `None` when the time is
/// before the epoch; the nanoseconds are below one billion, as
/// `Duration::subsec_nanos` documents.
#[verifier::external_body]
fn since_unix_epoch(t: &std::time::SystemTime) -> (r: Option<(u64, u32)>)
    ensures
        r matches Some(d) ==> d.1 < 1_000_000_000,
{
    match t.duration_since(std::time::UNIX_EPOCH) {
        Ok(d) => Some((d.as_secs(), d.subsec_nanos())),
        Err(_) => None,
    }
}

/// The RFC 3339 text that chrono writes for the UTC time `secs` seconds and
/// `nanos` nanoseconds after the Unix epoch, or `None` where chrono cannot
/// represent that time.
pub uninterp spec fn rfc3339_at(secs: int, nanos: int) -> Option<Seq<char>>;

/// Calls `chrono::DateTime::from_timestamp` and writes the time with
/// `to_rfc3339`. Claims that the result is a function of the arguments,
/// named `rfc3339_at`, and the shape that every such text has: the UTC
/// offset written "+00:00", after at least four year digits, the date and
/// the time.
#[verifier::external_body]
fn rfc3339_from_timestamp(secs: i64, nanos: u32) -> (r: Option<String>)
    ensures
        r.deep_view() == rfc3339_at(secs as int, nanos as int),
        r matches Some(s) ==> utc_rfc3339_text(s@),
{
    match chrono::DateTime::from_timestamp(secs, nanos) {
        Some(t) => Some(t.to_rfc3339()),
        None => None,
    }
}

/// The RFC 3339 text (UTC) of a time given as seconds and nanoseconds since
/// the Unix epoch, exactly as chrono writes that time; `None` for no time
/// and for seconds beyond what a signed 64-bit timestamp holds.
pub fn rfc3339_since_epoch(since: Option<(u64, u32)>) -> (r: Option<String>)
    ensures
        r.deep_view() == (match since {
            Some((secs, nanos)) => if secs <= i64::MAX {
                rfc3339_at(secs as int, nanos as int)
            } else {
                None
            },
            None => None,
        }),
        r matches Some(s) ==> utc_rfc3339_text(s@),
{
    match since {
        Some((secs, nanos)) => {
            if secs > i64::MAX as u64 {
                None
            } else {
                rfc3339_from_timestamp(secs as i64, nanos)
            }
        },
        None => None,
    }
}

/// The current time in RFC 3339 (UTC), or `None` when the clock reads
/// before 1970 or beyond what chrono represents. The text is chrono's
/// writing of some reading of the clock, in seconds and nanoseconds since
/// the Unix epoch.
pub fn now_rfc3339() -> (r: Option<String>)
    ensures
        r matches Some(s) ==> utc_rfc3339_text(s@),
        r matches Some(s) ==> exists|secs: u64, nanos: u32|
            nanos < 1_000_000_000 && secs <= i64::MAX && rfc3339_at(secs as int, nanos as int)
                == Some(s@),
{
    let now = system_time_now();
    let since = since_unix_epoch(&now);
    let r = rfc3339_since_epoch(since);
    proof {
        if r is Some {
            let (secs, nanos) = since->Some_0;
            assert(rfc3339_at(secs as int, nanos as int) == Some(r->Some_0@));
        }
    }
    r
}

} // verus!
