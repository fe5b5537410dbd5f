//! The compute side of the update pipeline.
//!
//! The pipeline streams a download through decompression and archive
//! extraction.  The streaming itself is I/O; what the library owns is
//! the accounting around it: reading the advertised content length,
//! deriving a truncating percentage from kilobyte counters, throttling
//! how often the percentage is forwarded, shaping the HTTP Basic
//! authentication header, and the completion marker's content.

use base64::Engine;
use vstd::arithmetic::div_mod::{
    lemma_div_is_ordered,
    lemma_div_of0,
    lemma_div_pos_is_pos,
    lemma_fundamental_div_mod,
    lemma_mod_bound,
};
use vstd::prelude::*;

use crate::errors::UpdaterError;

verus! {

/// Whether `c` is a decimal digit.
pub open spec fn is_digit(c: char) -> bool {
    '0' <= c <= '9'
}

/// The numeric value of a decimal digit.
pub open spec fn digit_val(c: char) -> int {
    c as int - '0' as int
}

/// Whether `s` consists of decimal digits only.
pub open spec fn all_digits(s: Seq<char>) -> bool {
    forall|i: int| 0 <= i < s.len() ==> is_digit(#[trigger] s[i])
}

/// The number written in decimal as `s`.
pub open spec fn dec_value(s: Seq<char>) -> int
    decreases s.len(),
{
    if s.len() == 0 {
        0
    } else {
        dec_value(s.drop_last()) * 10 + digit_val(s.last())
    }
}

/// A string of digits names a non-negative number.
proof fn lemma_dec_value_nonneg(s: Seq<char>)
    requires
        all_digits(s),
    ensures
        dec_value(s) >= 0,
    decreases s.len(),
{
    if s.len() > 0 {
        assert(all_digits(s.drop_last()));
        lemma_dec_value_nonneg(s.drop_last());
    }
}

/// Extending a digit string never shrinks its value.
proof fn lemma_dec_value_prefix(s: Seq<char>, n: int)
    requires
        all_digits(s),
        0 <= n <= s.len(),
    ensures
        dec_value(s.subrange(0, n)) <= dec_value(s),
    decreases s.len() - n,
{
    if n < s.len() {
        lemma_dec_value_prefix(s, n + 1);
        let p = s.subrange(0, n);
        let q = s.subrange(0, n + 1);
        assert(q.drop_last() =~= p);
        assert(all_digits(p));
        lemma_dec_value_nonneg(p);
        assert(dec_value(q) == dec_value(p) * 10 + digit_val(q.last()));
    } else {
        assert(s.subrange(0, n) =~= s);
    }
}

/// Parses a decimal number, as the advertised content length arrives in
/// an HTTP header.  `None` when the string is empty, holds anything but
/// digits, or names a number too large for the machine.
pub fn parse_decimal(s: &str) -> (r: Option<u64>)
    ensures
        match r {
            Some(v) => s@.len() > 0 && all_digits(s@) && v as int == dec_value(s@),
            None => s@.len() == 0 || !all_digits(s@) || dec_value(s@) > u64::MAX,
        },
{
    let n = s.unicode_len();
    if n == 0 {
        return None;
    }
    let mut acc: u64 = 0;
    let mut i: usize = 0;
    while i < n
        invariant
            0 < n == s@.len(),
            i <= n,
            all_digits(s@.subrange(0, i as int)),
            acc as int == dec_value(s@.subrange(0, i as int)),
        decreases n - i,
    {
        let c = s.get_char(i);
        if c < '0' || c > '9' {
            return None;
        }
        let d: u64 = (c as u32 as u64) - ('0' as u32 as u64);
        let shifted = match acc.checked_mul(10) {
            Some(v) => v,
            None => {
                proof {
                    overflow_means_too_large(s@, i as int, acc as int, d as int);
                }
                return None;
            },
        };
        let next = match shifted.checked_add(d) {
            Some(v) => v,
            None => {
                proof {
                    overflow_means_too_large(s@, i as int, acc as int, d as int);
                }
                return None;
            },
        };
        proof {
            assert(s@.subrange(0, i + 1).drop_last() =~= s@.subrange(0, i as int));
            assert(all_digits(s@.subrange(0, i + 1)));
        }
        acc = next;
        i += 1;
    }
    proof {
        assert(s@.subrange(0, n as int) =~= s@);
    }
    Some(acc)
}

/// When the next accumulator step leaves the machine range, the whole
/// string names a number beyond it.
proof fn overflow_means_too_large(s: Seq<char>, i: int, acc: int, d: int)
    requires
        0 <= i < s.len(),
        all_digits(s.subrange(0, i)),
        is_digit(s[i]),
        acc == dec_value(s.subrange(0, i)),
        d == digit_val(s[i]),
        acc * 10 + d > u64::MAX,
    ensures
        !all_digits(s) || dec_value(s) > u64::MAX,
{
    if all_digits(s) {
        let q = s.subrange(0, i + 1);
        assert(q.drop_last() =~= s.subrange(0, i));
        assert(dec_value(q) == acc * 10 + d);
        lemma_dec_value_prefix(s, i + 1);
    }
}

/// The truncating percentage of `kb` transferred out of `cl` expected,
/// capped at 100.
pub open spec fn spec_percent(kb: int, cl: int) -> int {
    if kb >= cl {
        100
    } else {
        kb * 100 / cl
    }
}

/// Below the cap the truncating percentage stays under 100.
proof fn lemma_percent_lt(kb: int, cl: int)
    requires
        0 <= kb < cl,
    ensures
        0 <= kb * 100 / cl < 100,
{
    let q = kb * 100 / cl;
    let r = (kb * 100) % cl;
    lemma_fundamental_div_mod(kb * 100, cl);
    lemma_mod_bound(kb * 100, cl);
    lemma_div_pos_is_pos(kb * 100, cl);
    if q >= 100 {
        assert(cl * q >= cl * 100) by (nonlinear_arith)
            requires
                cl > 0,
                q >= 100,
        ;
        assert(kb * 100 < cl * 100);
        assert(false);
    }
}

/// The download percentage derived from kilobyte counters: truncating
/// division, never past 100.
pub fn progress_percent(kb_transferred: u64, content_length_kb: u64) -> (p: i32)
    requires
        content_length_kb > 0,
    ensures
        p as int == spec_percent(kb_transferred as int, content_length_kb as int),
        0 <= p <= 100,
{
    if kb_transferred >= content_length_kb {
        100
    } else {
        proof {
            lemma_percent_lt(kb_transferred as int, content_length_kb as int);
        }
        let q: u128 = (kb_transferred as u128) * 100 / (content_length_kb as u128);
        q as i32
    }
}

/// More data transferred never lowers the percentage.
pub proof fn lemma_percent_monotonic(kb1: int, kb2: int, cl: int)
    requires
        0 <= kb1 <= kb2,
        cl > 0,
    ensures
        spec_percent(kb1, cl) <= spec_percent(kb2, cl),
{
    if kb2 < cl {
        lemma_div_is_ordered(kb1 * 100, kb2 * 100, cl);
    } else if kb1 < cl {
        lemma_percent_lt(kb1, cl);
    }
}

/// The percentage lies between 0 and 100 whenever any data is expected.
pub proof fn lemma_percent_bounds(kb: int, cl: int)
    requires
        0 <= kb,
        cl > 0,
    ensures
        0 <= spec_percent(kb, cl) <= 100,
{
    if kb < cl {
        lemma_percent_lt(kb, cl);
    }
}

/// What one update's progress reports look like, for any run of the
/// worker: read off a non-decreasing byte counter against a known
/// positive expected length, every derived percentage lies between 0
/// and 100, a counter that starts at zero reports zero first, the
/// percentages never decrease, and a percentage reaches 100 exactly
/// when the counter has accounted for the whole expected length.
pub proof fn lemma_progress_report_trace(counts: Seq<int>, cl: int)
    requires
        cl > 0,
        forall|i: int| 0 <= i < counts.len() ==> 0 <= #[trigger] counts[i],
        forall|i: int| 0 <= i < counts.len() - 1 ==> #[trigger] counts[i] <= counts[i + 1],
    ensures
        forall|i: int|
            0 <= i < counts.len() ==> 0 <= spec_percent(#[trigger] counts[i], cl) <= 100,
        counts.len() > 0 && counts[0] == 0 ==> spec_percent(counts[0], cl) == 0,
        forall|i: int|
            0 <= i < counts.len() - 1 ==> spec_percent(#[trigger] counts[i], cl) <= spec_percent(
                counts[i + 1],
                cl,
            ),
        forall|i: int|
            0 <= i < counts.len() ==> (spec_percent(#[trigger] counts[i], cl) == 100 <==> counts[i]
                >= cl),
{
    assert forall|i: int| 0 <= i < counts.len() implies 0 <= spec_percent(
        #[trigger] counts[i],
        cl,
    ) <= 100 by {
        lemma_percent_bounds(counts[i], cl);
    }
    if counts.len() > 0 && counts[0] == 0 {
        lemma_div_of0(cl);
    }
    assert forall|i: int| 0 <= i < counts.len() - 1 implies spec_percent(
        #[trigger] counts[i],
        cl,
    ) <= spec_percent(counts[i + 1], cl) by {
        lemma_percent_monotonic(counts[i], counts[i + 1], cl);
    }
    assert forall|i: int| 0 <= i < counts.len() implies (spec_percent(#[trigger] counts[i], cl)
        == 100 <==> counts[i] >= cl) by {
        if counts[i] < cl {
            lemma_percent_lt(counts[i], cl);
        }
    }
}

/// A once-per-interval limiter for forwarding progress, so the sink
/// is not flooded.  Time is handed in by the caller as milliseconds on some
/// monotonic clock.
pub struct ProgressThrottle {
    next_due_ms: u64,
    interval_ms: u64,
}

impl ProgressThrottle {
    /// The next moment a report may go out.
    pub closed spec fn spec_next_due(self) -> int {
        self.next_due_ms as int
    }

    /// The fixed spacing between reports.
    pub closed spec fn spec_interval(self) -> int {
        self.interval_ms as int
    }

    /// A limiter that first lets a report out `interval_ms` after `now_ms`.
    pub fn new(now_ms: u64, interval_ms: u64) -> (r: ProgressThrottle)
        ensures
            r.spec_next_due() == if now_ms + interval_ms <= u64::MAX {
                now_ms + interval_ms
            } else {
                u64::MAX as int
            },
            r.spec_interval() == interval_ms as int,
    {
        let next_due_ms = match now_ms.checked_add(interval_ms) {
            Some(v) => v,
            None => u64::MAX,
        };
        ProgressThrottle { next_due_ms, interval_ms }
    }

    /// Asks whether to forward progress now: allowed once the due
    /// moment has passed, and then again one interval later.
    pub fn poll(&mut self, now_ms: u64) -> (fire: bool)
        ensures
            fire == (old(self).spec_next_due() < now_ms as int),
            final(self).spec_interval() == old(self).spec_interval(),
            !fire ==> final(self).spec_next_due() == old(self).spec_next_due(),
            fire ==> final(self).spec_next_due() == if old(self).spec_next_due() + old(
                self,
            ).spec_interval() <= u64::MAX {
                old(self).spec_next_due() + old(self).spec_interval()
            } else {
                u64::MAX as int
            },
    {
        if self.next_due_ms < now_ms {
            self.next_due_ms = match self.next_due_ms.checked_add(self.interval_ms) {
                Some(v) => v,
                None => u64::MAX,
            };
            true
        } else {
            false
        }
    }
}

/// HTTP Basic authentication credentials for the firmware download.
pub struct Credentials {
    pub username: String,
    pub password: String,
}

/// Checks the credential shape of an update request: both parts or
/// neither, anything one-sided is a conflict and no download begins.
pub fn validate_credentials(username: Option<String>, password: Option<String>) -> (r: Result<
    Option<Credentials>,
    UpdaterError,
>)
    ensures
        match r {
            Ok(c) => match (username, password) {
                (Some(u), Some(p)) => c matches Some(cr) && cr.username@ == u@ && cr.password@
                    == p@,
                (None, None) => c is None,
                _ => false,
            },
            Err(e) => e == UpdaterError::StateConflict && (username is Some <==> password is None),
        },
{
    match (username, password) {
        (Some(u), Some(p)) => Ok(Some(Credentials { username: u, password: p })),
        (None, None) => Ok(None),
        _ => Err(UpdaterError::StateConflict),
    }
}

/// A character sequence encodes to at most four bytes per character.
proof fn lemma_encode_utf8_len(chars: Seq<char>)
    ensures
        vstd::utf8::encode_utf8(chars).len() <= 4 * chars.len(),
    decreases chars.len(),
{
    if chars.len() > 0 {
        lemma_encode_utf8_len(chars.drop_first());
    }
}

/// What the standard-alphabet, padded base64 encoding of a byte string
/// is.  Named here; the encoding itself is the outside crate's.
pub uninterp spec fn base64_chars(bytes: Seq<u8>) -> Seq<char>;

/// Relies on base64's `Engine::encode` with the `STANDARD` engine: the
/// output is a function of the input bytes alone, four characters for
/// every three bytes begun.  `encode` panics when the output length
/// leaves the machine range, so the input is kept well below it.
#[verifier::external_body]
fn base64_encode(input: &[u8]) -> (r: String)
    requires
        input@.len() <= 0x1000_0000_0000_0000,
    ensures
        r@ == base64_chars(input@),
        r@.len() == 4 * ((input@.len() + 2) / 3),
{
    base64::engine::general_purpose::STANDARD.encode(input)
}

/// Builds the HTTP Basic authentication header for the download
/// request: `Basic` and the base64 encoding of `username:password`.
pub fn basic_auth_header(credentials: &Credentials) -> (r: String)
    requires
        credentials.username@.len() + credentials.password@.len()
            < 0x0100_0000_0000_0000,
    ensures
        r@ == "Basic "@ + base64_chars(
            vstd::utf8::encode_utf8(credentials.username@ + ":"@ + credentials.password@),
        ),
{
    let mut joined = credentials.username.clone();
    joined.append(":");
    joined.append(credentials.password.as_str());
    proof {
        reveal_strlit(":");
        lemma_encode_utf8_len(joined@);
    }
    let encoded = base64_encode(joined.as_str().as_bytes());
    let mut header = String::from_str("Basic ");
    header.append(encoded.as_str());
    header
}

/// Relies on chrono's `Utc::now` and `DateTime::to_rfc3339_opts` with
/// second precision and a `Z` suffix: the moment is the machine's
/// clock, so nothing is claimed beyond the string being non-empty.
#[verifier::external_body]
pub fn now_utc_rfc3339() -> (r: String)
    ensures
        r@.len() > 0,
{
    chrono::Utc::now().to_rfc3339_opts(chrono::SecondsFormat::Secs, true)
}

/// The completion marker's content: the completion timestamp and a
/// final newline.
pub fn extraction_marker_line(timestamp: &str) -> (r: String)
    ensures
        r@ == timestamp@ + "\n"@,
{
    let mut line = String::from_str(timestamp);
    line.append("\n");
    line
}

} // verus!
