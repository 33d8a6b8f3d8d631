//! Instants at one-second precision and their RFC 3339 rendering.

use vstd::prelude::*;

verus! {

/// A point in time as seconds since the Unix epoch, rounded down, and the
/// nanoseconds past that second.
#[derive(Clone, Copy, Debug, PartialEq, Eq, Structural)]
pub struct FileTime {
    pub secs: i64,
    pub nanos: u32,
}

/// Why an instant could not be rendered.
#[derive(Clone, Copy, Debug, PartialEq, Eq, Structural)]
pub enum TimeError {
    /// The instant lies before the Unix epoch.
    BeforeEpoch,
    /// The instant lies outside the range of calendar dates that can be
    /// rendered, or no local offset is known for it.
    OutOfRange,
}

impl FileTime {
    pub fn new(secs: i64, nanos: u32) -> (r: FileTime)
        ensures
            r == (FileTime { secs, nanos }),
    {
        FileTime { secs, nanos }
    }
}

/// Truncates an instant to whole seconds; fails for an instant before the
/// epoch.
pub fn truncate_system_time(time: FileTime) -> (r: Result<FileTime, TimeError>)
    ensures
        time.secs < 0 ==> r == Err::<FileTime, TimeError>(TimeError::BeforeEpoch),
        time.secs >= 0 ==> r == Ok::<FileTime, TimeError>(FileTime { secs: time.secs, nanos: 0 }),
{
    if time.secs < 0 {
        Err(TimeError::BeforeEpoch)
    } else {
        Ok(FileTime { secs: time.secs, nanos: 0 })
    }
}

/// The first second, counted from the epoch, of chrono's calendar range.
pub const MIN_TIMESTAMP: i64 = -8334601228800;

/// The last second, counted from the epoch, of chrono's calendar range.
pub const MAX_TIMESTAMP: i64 = 8210266876799;

/// The RFC 3339 text of the instant `secs` seconds after the epoch, seen at a
/// fixed offset of `offset_secs` seconds east of UTC.
pub uninterp spec fn rfc3339_text(secs: int, offset_secs: int) -> Seq<char>;

/// Whether a text renders, in RFC 3339, a whole second at or after the epoch
/// at some offset of less than a day.
pub open spec fn is_rendered_instant(t: Seq<char>) -> bool {
    exists|secs: int, off: int|
        0 <= secs <= MAX_TIMESTAMP && -86_400 < off < 86_400 && t == #[trigger] rfc3339_text(
            secs,
            off,
        )
}

/// Relies on chrono's FixedOffset::east_opt, TimeZone::timestamp_opt and
/// DateTime::to_rfc3339: the rendering depends on the two numbers alone, and
/// is missing exactly for an instant outside chrono's calendar range
/// (`DateTime::from_timestamp`).
#[verifier::external_body]
fn rfc3339_at(secs: i64, offset_secs: i32) -> (r: Option<String>)
    requires
        -86_400 < offset_secs < 86_400,
    ensures
        r is Some <==> MIN_TIMESTAMP <= secs <= MAX_TIMESTAMP,
        r matches Some(s) ==> s@ == rfc3339_text(secs as int, offset_secs as int),
{
    chrono::FixedOffset::east_opt(offset_secs)
        .and_then(|o| chrono::TimeZone::timestamp_opt(&o, secs, 0).single())
        .map(|d| d.to_rfc3339())
}

/// Relies on chrono's Local time zone (TimeZone::timestamp_opt and
/// FixedOffset::local_minus_utc): the machine's offset from UTC at an
/// instant, which chrono keeps strictly within one day, missing exactly for
/// an instant outside chrono's calendar range (`DateTime::from_timestamp`).
#[verifier::external_body]
fn local_offset_at(secs: i64) -> (r: Option<i32>)
    ensures
        r is Some <==> MIN_TIMESTAMP <= secs <= MAX_TIMESTAMP,
        r matches Some(o) ==> -86_400 < o < 86_400,
{
    chrono::TimeZone::timestamp_opt(&chrono::Local, secs, 0)
        .single()
        .map(|d| d.offset().local_minus_utc())
}

/// Relies on std::time::SystemTime::now: the current time, whatever the
/// clock reads, or `None` when it reads before the epoch (or beyond what
/// `i64` seconds hold).
#[verifier::external_body]
pub(crate) fn clock_now() -> (r: Option<FileTime>)
    ensures
        r matches Some(t) ==> t.secs >= 0 && t.nanos < 1_000_000_000,
{
    std::time::SystemTime::now().duration_since(std::time::UNIX_EPOCH).ok().and_then(
        |d| i64::try_from(d.as_secs()).ok().map(|secs| FileTime { secs, nanos: d.subsec_nanos() }),
    )
}

/// Renders an instant in RFC 3339 at second precision, in the machine's local
/// offset.
pub fn format_iso8601(time: FileTime) -> (r: Result<String, TimeError>)
    ensures
        time.secs < 0 <==> r == Err::<String, TimeError>(TimeError::BeforeEpoch),
        0 <= time.secs <= MAX_TIMESTAMP <==> r is Ok,
        r matches Ok(s) ==> exists|off: int|
            -86_400 < off < 86_400 && s@ == #[trigger] rfc3339_text(time.secs as int, off),
{
    let t = match truncate_system_time(time) {
        Ok(t) => t,
        Err(e) => {
            return Err(e);
        },
    };
    let offset = match local_offset_at(t.secs) {
        Some(o) => o,
        None => {
            return Err(TimeError::OutOfRange);
        },
    };
    match rfc3339_at(t.secs, offset) {
        Some(s) => Ok(s),
        None => Err(TimeError::OutOfRange),
    }
}

} // verus!
