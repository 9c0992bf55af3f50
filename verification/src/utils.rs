//! Identifier generation and timestamps.
use vstd::prelude::*;
use crate::text::{concat, starts_with};

verus! {

/// Whether `c` is a lowercase hexadecimal digit.
pub open spec fn is_lower_hex(c: char) -> bool {
    ('0' <= c && c <= '9') || ('a' <= c && c <= 'f')
}

/// Whether `id` is `prefix` followed by 32 lowercase hexadecimal digits.
pub open spec fn is_prefixed_id(id: Seq<char>, prefix: Seq<char>) -> bool {
    &&& id.len() == prefix.len() + 32
    &&& starts_with(id, prefix)
    &&& forall|i: int| prefix.len() <= i < id.len() ==> is_lower_hex(#[trigger] id[i])
}

/// A fresh random version-4 UUID in its simple form.
///
/// Trusted: `uuid::Uuid::new_v4` draws a random UUID, and its `simple()`
/// formatter writes the 16 bytes as 32 lowercase hexadecimal digits with no
/// hyphens. Which digits come out is left unsaid: they are random.
#[verifier::external_body]
fn uuid_v4_simple() -> (s: String)
    ensures
        is_uuid_simple(s@),
{
    uuid::Uuid::new_v4().simple().to_string()
}

/// Whether `draw` is 32 lowercase hexadecimal digits.
pub open spec fn is_uuid_simple(draw: Seq<char>) -> bool {
    draw.len() == 32 && forall|i: int| 0 <= i < 32 ==> is_lower_hex(#[trigger] draw[i])
}

/// An identifier made of `prefix` and a drawn UUID in simple form.
pub fn prefixed_id(prefix: &str, draw: &str) -> (id: String)
    ensures
        id@ == prefix@ + draw@,
        is_uuid_simple(draw@) ==> is_prefixed_id(id@, prefix@),
{
    let id = concat(prefix, draw);
    assert(id@.subrange(0, prefix@.len() as int) =~= prefix@);
    proof {
        if is_uuid_simple(draw@) {
            assert forall|i: int| prefix@.len() <= i < id@.len() implies is_lower_hex(#[trigger] id@[i]) by {
                assert(id@[i] == draw@[i - prefix@.len()]);
            }
        }
    }
    id
}

fn fresh_id(prefix: &str) -> (id: String)
    ensures
        is_prefixed_id(id@, prefix@),
{
    let u = uuid_v4_simple();
    prefixed_id(prefix, u.as_str())
}

/// A new video identifier: `vid_` followed by 32 random hexadecimal digits.
pub fn generate_video_id() -> (id: String)
    ensures
        is_prefixed_id(id@, "vid_"@),
{
    fresh_id("vid_")
}

/// A new share token: `shr_` followed by 32 random hexadecimal digits.
pub fn generate_share_token() -> (token: String)
    ensures
        is_prefixed_id(token@, "shr_"@),
{
    fresh_id("shr_")
}

/// A new job identifier: `job_` followed by 32 random hexadecimal digits.
pub fn generate_job_id() -> (id: String)
    ensures
        is_prefixed_id(id@, "job_"@),
{
    fresh_id("job_")
}

/// A new worker identifier: `worker_` followed by 32 random hexadecimal digits.
pub fn generate_worker_id() -> (id: String)
    ensures
        is_prefixed_id(id@, "worker_"@),
{
    fresh_id("worker_")
}

/// The earliest second, counted from the Unix epoch, that `chrono`'s
/// `DateTime<Utc>` can hold: `DateTime::<Utc>::MIN_UTC.timestamp()`, the
/// start of `NaiveDate::MIN` (ordinal day 1 of year -262143).
pub const EARLIEST_UTC_SECONDS: i64 = -8334601228800;

/// The latest second that `chrono`'s `DateTime<Utc>` can hold:
/// `DateTime::<Utc>::MAX_UTC.timestamp()` (31 December of year 262142).
pub const LATEST_UTC_SECONDS: i64 = 8210266876799;

/// Whether a count of seconds from the epoch is a time `chrono` can hold.
pub open spec fn in_utc_range(t: int) -> bool {
    EARLIEST_UTC_SECONDS <= t <= LATEST_UTC_SECONDS
}

/// What `chrono` writes for the UTC time `seconds` after the epoch with
/// `to_rfc3339_opts(SecondsFormat::Secs, true)`, such as `2026-03-08T12:34:56Z`.
pub uninterp spec fn rfc3339_utc(seconds: int) -> Seq<char>;

/// Reads the clock.
///
/// Trusted: `chrono::Utc::now().timestamp()`, the whole seconds since the
/// epoch. `Utc::now` measures from the epoch (it panics on a system clock
/// set before it), and every `DateTime<Utc>` lies between `MIN_UTC` and
/// `MAX_UTC`, so the reading is in range and not negative; which second it
/// is depends on the clock and is not stated.
#[verifier::external_body]
pub(crate) fn clock_seconds() -> (t: i64)
    ensures
        in_utc_range(t as int),
        0 <= t,
{
    chrono::Utc::now().timestamp()
}

/// Formats a time given in seconds from the epoch.
///
/// Trusted: `chrono::DateTime::from_timestamp(seconds, 0)` gives a time for
/// every count in range (so the default is never taken), and
/// `to_rfc3339_opts(SecondsFormat::Secs, true)` writes it; the text is a
/// function of the count, named `rfc3339_utc`.
#[verifier::external_body]
pub(crate) fn format_utc_seconds(seconds: i64) -> (s: String)
    requires
        in_utc_range(seconds as int),
    ensures
        s@ == rfc3339_utc(seconds as int),
{
    chrono::DateTime::from_timestamp(seconds, 0)
        .unwrap_or_default()
        .to_rfc3339_opts(chrono::SecondsFormat::Secs, true)
}

/// The current UTC time in RFC 3339 form, to the second, with a `Z` suffix.
pub fn now_iso() -> (s: String)
    ensures
        exists|t: int| #[trigger] in_utc_range(t) && s@ == rfc3339_utc(t),
{
    let t = clock_seconds();
    format_utc_seconds(t)
}

} // verus!
