use vstd::prelude::*;
use vstd::string::*;
use vstd::utf8::{encode_utf8, is_ascii_chars, is_ascii_chars_encode_utf8};

use crate::text::{decimal_text, digit_char, lemma_u64_decimal_shape, u64_to_decimal};

verus! {

/// `bytes` with every leading `"0x"` removed, as `str::trim_start_matches("0x")` does.
pub open spec fn strip_hex_prefixes(bytes: Seq<u8>) -> Seq<u8>
    decreases bytes.len(),
{
    if bytes.len() >= 2 && bytes[0] == 48u8 && bytes[1] == 120u8 {
        strip_hex_prefixes(bytes.subrange(2, bytes.len() as int))
    } else {
        bytes
    }
}

/// The value of an ASCII hexadecimal digit (either case).
pub open spec fn hex_digit(c: u8) -> Option<nat> {
    if 48 <= c <= 57 {
        Some((c - 48) as nat)
    } else if 97 <= c <= 102 {
        Some((c - 87) as nat)
    } else if 65 <= c <= 70 {
        Some((c - 55) as nat)
    } else {
        None
    }
}

pub open spec fn all_hex_digits(digits: Seq<u8>) -> bool {
    forall|i: int| 0 <= i < digits.len() ==> #[trigger] hex_digit(digits[i]) is Some
}

/// The number that a sequence of hexadecimal digits writes, most significant first.
pub open spec fn hex_value(digits: Seq<u8>) -> nat
    decreases digits.len(),
{
    if digits.len() == 0 {
        0
    } else {
        hex_value(digits.drop_last()) * 16 + hex_digit(digits.last()).unwrap_or(0)
    }
}

/// What `u64::from_str_radix(src, 16)` accepts: an optional `+`, then at least one
/// hexadecimal digit, the whole value fitting in `u64`.
pub open spec fn radix16_u64(src: Seq<u8>) -> Option<u64> {
    let digits = if src.len() > 0 && src[0] == 43u8 {
        src.subrange(1, src.len() as int)
    } else {
        src
    };
    if digits.len() == 0 || !all_hex_digits(digits) || hex_value(digits) > u64::MAX {
        None
    } else {
        Some(hex_value(digits) as u64)
    }
}

/// The number that the text of a field element names, read as hexadecimal
/// after its `0x` prefixes.
pub open spec fn felt_text_value(text: Seq<char>) -> Option<u64> {
    radix16_u64(strip_hex_prefixes(encode_utf8(text)))
}

/// Among hexadecimal digits, a longer sequence never writes a smaller number
/// than any of its prefixes.
pub proof fn lemma_hex_value_prefix(digits: Seq<u8>, m: int)
    requires
        all_hex_digits(digits),
        0 <= m <= digits.len(),
    ensures
        hex_value(digits.take(m)) <= hex_value(digits),
    decreases digits.len(),
{
    if m == digits.len() {
        assert(digits.take(m) =~= digits);
    } else {
        let shorter = digits.drop_last();
        assert(all_hex_digits(shorter)) by {
            assert forall|i: int| 0 <= i < shorter.len() implies #[trigger] hex_digit(shorter[i]) is Some by {
                assert(shorter[i] == digits[i]);
            }
        }
        lemma_hex_value_prefix(shorter, m);
        assert(shorter.take(m) =~= digits.take(m));
    }
}

/// The lower-case hexadecimal digit for `d < 16`.
pub open spec fn hex_char(d: nat) -> char {
    if d < 10 {
        digit_char(d)
    } else if d == 10 {
        'a'
    } else if d == 11 {
        'b'
    } else if d == 12 {
        'c'
    } else if d == 13 {
        'd'
    } else if d == 14 {
        'e'
    } else {
        'f'
    }
}

/// The lower-case hexadecimal rendering of `n`, without prefix or leading zeros.
pub open spec fn hex_text(n: nat) -> Seq<char>
    decreases n,
{
    if n < 16 {
        seq![hex_char(n)]
    } else {
        hex_text(n / 16) + seq![hex_char(n % 16)]
    }
}

proof fn lemma_hex_char_byte(d: nat)
    requires
        d < 16,
    ensures
        hex_digit(hex_char(d) as u8) == Some(d),
        hex_char(d) as u8 != 120u8,
        hex_char(d) as u8 != 43u8,
        '\0' <= hex_char(d) <= '\u{7f}',
{
}

proof fn lemma_hex_text_bytes(n: nat)
    ensures
        is_ascii_chars(hex_text(n)),
        hex_text(n).len() >= 1,
        all_hex_digits(encode_utf8(hex_text(n))),
        hex_value(encode_utf8(hex_text(n))) == n,
        encode_utf8(hex_text(n))[0] != 120u8,
        encode_utf8(hex_text(n))[0] != 43u8,
        hex_text(n).len() >= 2 ==> encode_utf8(hex_text(n))[1] != 120u8,
    decreases n,
{
    let t = hex_text(n);
    if n < 16 {
        lemma_hex_char_byte(n);
        assert(is_ascii_chars(t));
        is_ascii_chars_encode_utf8(t);
        let b = encode_utf8(t);
        assert(b.drop_last() =~= Seq::<u8>::empty());
        assert(hex_value(b.drop_last()) == 0);
    } else {
        let p = hex_text(n / 16);
        lemma_hex_text_bytes(n / 16);
        lemma_hex_char_byte(n % 16);
        assert(is_ascii_chars(t)) by {
            assert forall|i: int| 0 <= i < t.len() implies '\0' <= #[trigger] t[i] <= '\u{7f}' by {
                if i < p.len() {
                    assert(t[i] == p[i]);
                }
            }
        }
        is_ascii_chars_encode_utf8(t);
        is_ascii_chars_encode_utf8(p);
        let b = encode_utf8(t);
        let pb = encode_utf8(p);
        assert(b.drop_last() =~= pb) by {
            assert forall|i: int| 0 <= i < pb.len() implies b.drop_last()[i] == pb[i] by {
                assert(t[i] == p[i]);
            }
        }
        assert(b.last() == hex_char(n % 16) as u8);
        assert(all_hex_digits(b)) by {
            assert forall|i: int| 0 <= i < b.len() implies #[trigger] hex_digit(b[i]) is Some by {
                if i < pb.len() {
                    assert(b[i] == pb[i]);
                }
            }
        }
        assert(b[0] == pb[0]);
        if p.len() >= 2 {
            assert(b[1] == pb[1]);
        } else {
            assert(b[1] == hex_char(n % 16) as u8);
        }
    }
}

/// Reading back the `0x`-prefixed lower-case hexadecimal text of any `u64`
/// gives that number: the text a field element renders to is read exactly.
pub proof fn lemma_felt_hex_roundtrip(v: u64)
    ensures
        felt_text_value("0x"@ + hex_text(v as nat)) == Some(v),
{
    reveal_strlit("0x");
    let h = hex_text(v as nat);
    let chars = "0x"@ + h;
    lemma_hex_text_bytes(v as nat);
    assert(is_ascii_chars(chars)) by {
        assert forall|i: int| 0 <= i < chars.len() implies '\0' <= #[trigger] chars[i] <= '\u{7f}' by {
            if i >= 2 {
                assert(chars[i] == h[i - 2]);
            }
        }
    }
    is_ascii_chars_encode_utf8(chars);
    is_ascii_chars_encode_utf8(h);
    let b = encode_utf8(chars);
    let hb = encode_utf8(h);
    assert(b.subrange(2, b.len() as int) =~= hb) by {
        assert forall|i: int| 0 <= i < hb.len() implies b.subrange(2, b.len() as int)[i] == hb[i] by {
            assert(chars[i + 2] == h[i]);
        }
    }
    assert(b[0] == 48u8 && b[1] == 120u8);
    assert(strip_hex_prefixes(hb) == hb);
    assert(strip_hex_prefixes(b) == hb);
}

fn hex_digit_of(c: u8) -> (r: Option<u64>)
    ensures
        match hex_digit(c) {
            Some(v) => r == Some(v as u64),
            None => r is None,
        },
{
    if 48 <= c && c <= 57 {
        Some((c - 48) as u64)
    } else if 97 <= c && c <= 102 {
        Some((c - 87) as u64)
    } else if 65 <= c && c <= 70 {
        Some((c - 55) as u64)
    } else {
        None
    }
}

/// Reads the text of a field element as a `u64`: drops every leading `"0x"`,
/// then parses the rest as `u64::from_str_radix(_, 16)` does.
pub fn parse_felt_u64(text: &str) -> (r: Option<u64>)
    ensures
        r == felt_text_value(text@),
{
    let b = text.as_bytes();
    let n: usize = b.len();
    let ghost bytes = b@;
    let mut i: usize = 0;
    assert(bytes.subrange(0, n as int) =~= bytes);
    while i < n && n - i >= 2 && b[i] == 48 && b[i + 1] == 120
        invariant
            i <= n,
            n == bytes.len(),
            bytes == b@,
            strip_hex_prefixes(bytes) == strip_hex_prefixes(bytes.subrange(i as int, n as int)),
        decreases n - i,
    {
        proof {
            let rest = bytes.subrange(i as int, n as int);
            assert(rest.subrange(2, rest.len() as int) =~= bytes.subrange(i + 2, n as int));
        }
        i = i + 2;
    }
    let ghost src = bytes.subrange(i as int, n as int);
    assert(strip_hex_prefixes(src) == src);
    let k: usize = if i < n && b[i] == 43 {
        i + 1
    } else {
        i
    };
    let ghost digits = bytes.subrange(k as int, n as int);
    assert(src.len() > 0 && src[0] == 43u8 ==> src.subrange(1, src.len() as int) =~= digits);
    assert(!(src.len() > 0 && src[0] == 43u8) ==> src =~= digits);
    if k == n {
        return None;
    }
    let ghost expected = felt_text_value(text@);
    assert(expected == if !all_hex_digits(digits) || hex_value(digits) > u64::MAX {
        None
    } else {
        Some(hex_value(digits) as u64)
    });
    let mut acc: u64 = 0;
    let mut j: usize = k;
    assert(digits.take(0) =~= Seq::<u8>::empty());
    while j < n
        invariant
            k <= j <= n,
            n == bytes.len(),
            bytes == b@,
            digits == bytes.subrange(k as int, n as int),
            all_hex_digits(digits.take(j - k)),
            acc == hex_value(digits.take(j - k)),
            expected == felt_text_value(text@),
            expected == if !all_hex_digits(digits) || hex_value(digits) > u64::MAX {
                None
            } else {
                Some(hex_value(digits) as u64)
            },
        decreases n - j,
    {
        let ghost m: int = j - k;
        let ghost next = digits.take(m + 1);
        assert(next.drop_last() =~= digits.take(m));
        assert(next.last() == b@[j as int]);
        let d = hex_digit_of(b[j]);
        match d {
            None => {
                assert(hex_digit(digits[m]) is None);
                return None;
            },
            Some(v) => {
                assert(all_hex_digits(next)) by {
                    assert forall|t: int| 0 <= t < next.len() implies #[trigger] hex_digit(next[t]) is Some by {
                        if t < m {
                            assert(next[t] == digits.take(m)[t]);
                        }
                    }
                }
                let mul = acc.checked_mul(16);
                match mul {
                    None => {
                        proof {
                            if all_hex_digits(digits) {
                                lemma_hex_value_prefix(digits, m + 1);
                            }
                        }
                        return None;
                    },
                    Some(prod) => {
                        let sum = prod.checked_add(v);
                        match sum {
                            None => {
                                proof {
                                    if all_hex_digits(digits) {
                                        lemma_hex_value_prefix(digits, m + 1);
                                    }
                                }
                                return None;
                            },
                            Some(total) => {
                                acc = total;
                            },
                        }
                    },
                }
            },
        }
        j = j + 1;
    }
    assert(digits.take(n - k) =~= digits);
    Some(acc)
}

/// `c` with an ASCII upper-case letter made lower-case.
pub open spec fn ascii_lower(c: u8) -> u8 {
    if 65 <= c <= 90 {
        (c + 32) as u8
    } else {
        c
    }
}

/// The 32 hexadecimal digits of a hyphenated UUID text (groups of 8-4-4-4-12
/// digits joined by `-`), when `s` has that shape.
pub open spec fn hyphenated_digits(s: Seq<u8>) -> Option<Seq<u8>> {
    if s.len() == 36 && s[8] == 45u8 && s[13] == 45u8 && s[18] == 45u8 && s[23] == 45u8 {
        Some(
            s.subrange(0, 8) + s.subrange(9, 13) + s.subrange(14, 18) + s.subrange(19, 23)
                + s.subrange(24, 36),
        )
    } else {
        None
    }
}

/// The bytes `urn:uuid:`.
pub open spec fn urn_prefix() -> Seq<u8> {
    seq![117u8, 114u8, 110u8, 58u8, 117u8, 117u8, 105u8, 100u8, 58u8]
}

/// The digits of the forms of UUID text that `Uuid::parse_str` reads: 32
/// digits; hyphenated; hyphenated in braces; hyphenated after a `urn:uuid:`
/// prefix in any letter case.
pub open spec fn uuid_digits(b: Seq<u8>) -> Option<Seq<u8>> {
    if b.len() == 32 {
        Some(b)
    } else if b.len() == 36 {
        hyphenated_digits(b)
    } else if b.len() == 38 && b[0] == 123u8 && b[37] == 125u8 {
        hyphenated_digits(b.subrange(1, 37))
    } else if b.len() == 45 && b.subrange(0, 9).map_values(|c: u8| ascii_lower(c)) == urn_prefix() {
        hyphenated_digits(b.subrange(9, 45))
    } else {
        None
    }
}

/// The 128-bit value of the UUID that the bytes `text` spell, if they spell one:
/// its digits read as one big-endian hexadecimal number.
pub open spec fn uuid_text_value(text: Seq<u8>) -> Option<u128> {
    match uuid_digits(text) {
        Some(d) => if all_hex_digits(d) {
            Some(hex_value(d) as u128)
        } else {
            None
        },
        None => None,
    }
}

/// Calls `uuid::Uuid::parse_str` and gives the parsed UUID as its `u128` value
/// (`Uuid::as_u128`, which reads the 16 bytes big-endian). Claimed: it accepts
/// exactly the simple, hyphenated, braced and URN forms whose digits are all
/// hexadecimal (either case), and the value is those digits read as a number.
#[verifier::external_body]
fn parse_uuid(text: &str) -> (r: Option<u128>)
    ensures
        r == uuid_text_value(text.spec_bytes()),
{
    match uuid::Uuid::parse_str(text) {
        Ok(u) => Some(u.as_u128()),
        Err(_) => None,
    }
}

/// The UUID under which a job is looked up when it is addressed by the number
/// `job_id`: the decimal text of the number, parsed as a UUID. No decimal text
/// of a `u64` has a length that a UUID can have, so there never is one.
pub fn job_uuid(job_id: u64) -> (r: Option<u128>)
    ensures
        r == uuid_text_value(encode_utf8(decimal_text(job_id as nat))),
        r is None,
{
    let text = u64_to_decimal(job_id);
    let s = text.as_str();
    proof {
        lemma_u64_decimal_shape(job_id);
        vstd::string::is_ascii_spec_bytes(s);
    }
    parse_uuid(s)
}

/// `num_traits::ToPrimitive::to_u64` on `i64`: the same number when it is not
/// negative, else nothing.
pub assume_specification[ <i64 as num_traits::ToPrimitive>::to_u64 ](x: &i64) -> (r: Option<u64>)
    ensures
        r == (if *x >= 0 {
            Some(*x as u64)
        } else {
            None
        }),
;

/// The figures of the service's status report.
pub struct StatusDetails {
    pub last_epoch_in_progress: u64,
    pub last_sync_committee_in_progress: u64,
    pub jobs_in_progress_count: u64,
}

/// The latest epoch in progress as reported: the stored epoch, or 0 when the
/// store has none or cannot be read.
pub open spec fn reported_epoch(fetched: Result<Option<i64>, ()>) -> u64 {
    match fetched {
        Ok(Some(epoch)) => epoch as u64,
        _ => 0,
    }
}

/// The reported epoch is the stored epoch itself, as a number, whenever the
/// store holds one (which is never negative); it is 0 exactly when the store
/// holds none or cannot be read.
pub proof fn lemma_reported_epoch_is_stored(fetched: Result<Option<i64>, ()>)
    requires
        fetched matches Ok(Some(epoch)) ==> epoch >= 0,
    ensures
        fetched matches Ok(Some(epoch)) ==> reported_epoch(fetched) as int == epoch as int,
        !(fetched matches Ok(Some(_))) ==> reported_epoch(fetched) == 0,
{
}

/// The status report from what the store answered. A stored epoch is never negative.
pub fn status_details(
    last_epoch: Result<Option<i64>, ()>,
    last_sync_committee_in_progress: u64,
    jobs_in_progress_count: u64,
) -> (r: StatusDetails)
    requires
        last_epoch matches Ok(Some(epoch)) ==> epoch >= 0,
    ensures
        r.last_epoch_in_progress == reported_epoch(last_epoch),
        last_epoch matches Ok(Some(epoch)) ==> r.last_epoch_in_progress == epoch,
        !(last_epoch matches Ok(Some(_))) ==> r.last_epoch_in_progress == 0,
        r.last_sync_committee_in_progress == last_sync_committee_in_progress,
        r.jobs_in_progress_count == jobs_in_progress_count,
{
    let last_epoch_in_progress: u64 = match last_epoch {
        Ok(Some(epoch)) => {
            num_traits::ToPrimitive::to_u64(&epoch).unwrap()
        },
        Ok(None) => 0,
        Err(_) => 0,
    };
    StatusDetails { last_epoch_in_progress, last_sync_committee_in_progress, jobs_in_progress_count }
}

/// The errors that the routes answer with.
#[derive(Debug, Clone, Copy, PartialEq, Eq)]
pub enum RouteError {
    InternalServerError,
    FailedToFetchProof,
    InvalidEpochFormat,
    FailedToFetchLatestEpoch,
    JobNotFound,
    FailedToFetchJobStatus,
    EpochNotAvailable,
}

pub open spec fn route_error_message(e: RouteError) -> Seq<char> {
    match e {
        RouteError::InternalServerError => "Internal server error"@,
        RouteError::FailedToFetchProof => "Failed to fetch proof"@,
        RouteError::InvalidEpochFormat => "Invalid epoch format"@,
        RouteError::FailedToFetchLatestEpoch => "Failed to fetch latest epoch"@,
        RouteError::JobNotFound => "Job not found"@,
        RouteError::FailedToFetchJobStatus => "Failed to fetch job status"@,
        RouteError::EpochNotAvailable => "Epoch not available now"@,
    }
}

/// Different route errors answer with different, non-empty texts.
pub proof fn lemma_route_error_messages_distinct(e: RouteError, f: RouteError)
    ensures
        route_error_message(e).len() > 0,
        e != f ==> route_error_message(e) != route_error_message(f),
{
    reveal_strlit("Internal server error");
    reveal_strlit("Failed to fetch proof");
    reveal_strlit("Invalid epoch format");
    reveal_strlit("Failed to fetch latest epoch");
    reveal_strlit("Job not found");
    reveal_strlit("Failed to fetch job status");
    reveal_strlit("Epoch not available now");
    if e != f && route_error_message(e) == route_error_message(f) {
        let a = route_error_message(e);
        let b = route_error_message(f);
        assert(a.len() == b.len());
        assert(a[0] == b[0]);
        assert(a[16] == b[16]);
        assert(a[10] == b[10]);
    }
}

impl RouteError {
    /// The text of the `error` member that answers this error.
    pub fn message(&self) -> (r: String)
        ensures
            r@ == route_error_message(*self),
    {
        match self {
            RouteError::InternalServerError => String::from_str("Internal server error"),
            RouteError::FailedToFetchProof => String::from_str("Failed to fetch proof"),
            RouteError::InvalidEpochFormat => String::from_str("Invalid epoch format"),
            RouteError::FailedToFetchLatestEpoch => String::from_str("Failed to fetch latest epoch"),
            RouteError::JobNotFound => String::from_str("Job not found"),
            RouteError::FailedToFetchJobStatus => String::from_str("Failed to fetch job status"),
            RouteError::EpochNotAvailable => String::from_str("Epoch not available now"),
        }
    }
}

/// The latest verified slot (or committee) from the text of the field element
/// that the contract returned, or why there is none.
pub fn latest_verified_value(fetched: Result<String, ()>) -> (r: Result<u64, RouteError>)
    ensures
        match fetched {
            Err(_) => r == Err::<u64, RouteError>(RouteError::FailedToFetchLatestEpoch),
            Ok(text) => match felt_text_value(text@) {
                Some(v) => r == Ok::<u64, RouteError>(v),
                None => r == Err::<u64, RouteError>(RouteError::InvalidEpochFormat),
            },
        },
{
    match fetched {
        Err(_) => Err(RouteError::FailedToFetchLatestEpoch),
        Ok(text) => match parse_felt_u64(text.as_str()) {
            Some(v) => Ok(v),
            None => Err(RouteError::InvalidEpochFormat),
        },
    }
}

/// The merkle paths of an epoch as answered: the stored paths when there are
/// any, else why not.
pub fn merkle_paths_reply(fetched: Result<Vec<String>, ()>) -> (r: Result<Vec<String>, RouteError>)
    ensures
        match fetched {
            Err(_) => r == Err::<Vec<String>, RouteError>(RouteError::FailedToFetchLatestEpoch),
            Ok(paths) => if paths@.len() > 0 {
                r == Ok::<Vec<String>, RouteError>(paths)
            } else {
                r == Err::<Vec<String>, RouteError>(RouteError::EpochNotAvailable)
            },
        },
{
    match fetched {
        Err(_) => Err(RouteError::FailedToFetchLatestEpoch),
        Ok(paths) => if paths.len() > 0 {
            Ok(paths)
        } else {
            Err(RouteError::EpochNotAvailable)
        },
    }
}

/// The status of a job as answered: the stored status, or why there is none.
pub fn job_status_reply(fetched: Result<Option<String>, ()>) -> (r: Result<String, RouteError>)
    ensures
        match fetched {
            Err(_) => r == Err::<String, RouteError>(RouteError::FailedToFetchJobStatus),
            Ok(None) => r == Err::<String, RouteError>(RouteError::JobNotFound),
            Ok(Some(status)) => r == Ok::<String, RouteError>(status),
        },
{
    match fetched {
        Err(_) => Err(RouteError::FailedToFetchJobStatus),
        Ok(None) => Err(RouteError::JobNotFound),
        Ok(Some(status)) => Ok(status),
    }
}

} // verus!
