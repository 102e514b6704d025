//! Instants as the records hold them: RFC 3339 text in UTC, and seconds since
//! the Unix epoch.

use vstd::prelude::*;

use time::format_description::well_known::Rfc3339;
use time::OffsetDateTime;

verus! {

/// The first second that the clock can name: the start of the year -9999.
pub const FIRST_SECOND: i64 = -377_705_116_800;

/// The first second of the year 0, the first that RFC 3339 has a text for.
pub const FIRST_RFC3339_SECOND: i64 = -62_167_219_200;

/// The last second of the year 9999, the last that the clock can name.
pub const LAST_SECOND: i64 = 253_402_300_799;

#[verifier::external_type_specification]
#[verifier::external_body]
pub struct ExComponentRange(time::error::ComponentRange);

/// The instant that stands in where there is no text: the Unix epoch.
pub open spec fn epoch_text() -> Seq<char> {
    "1970-01-01T00:00:00Z"@
}

/// How many nanoseconds a second has.
pub const NANOS_PER_SECOND: i64 = 1_000_000_000;

/// The RFC 3339 text, in UTC, of an instant: of so many nanoseconds since the
/// Unix epoch.
pub uninterp spec fn rfc3339_at(nanos: int) -> Seq<char>;

/// The RFC 3339 text, in UTC, of a whole second since the Unix epoch.
pub open spec fn rfc3339_of(second: int) -> Seq<char> {
    rfc3339_at(second * NANOS_PER_SECOND)
}

/// An instant that the clock can name, in nanoseconds since the Unix epoch.
pub open spec fn is_nano(nanos: int) -> bool {
    FIRST_SECOND * NANOS_PER_SECOND <= nanos < (LAST_SECOND + 1) * NANOS_PER_SECOND
}

/// An instant from the year 0 on, which RFC 3339 has a text for.
pub open spec fn has_text(nanos: int) -> bool {
    FIRST_RFC3339_SECOND * NANOS_PER_SECOND <= nanos
}

/// The text of an instant; that of the epoch where RFC 3339 has none for it.
pub open spec fn instant_text(nanos: int) -> Seq<char> {
    if has_text(nanos) {
        rfc3339_at(nanos)
    } else {
        epoch_text()
    }
}

/// The text of some instant that the clock can name.
pub open spec fn is_instant_text(text: Seq<char>) -> bool {
    exists|nanos: int| is_nano(nanos) && text == #[trigger] instant_text(nanos)
}

/// `OffsetDateTime::from_unix_timestamp`, then `OffsetDateTime::format` with
/// `Rfc3339`. The first fails outside the years -9999 to 9999, the second
/// outside the years 0 to 9999; the text depends on the second alone.
#[verifier::external_body]
fn format_second(second: i64) -> (r: Result<Option<String>, time::error::ComponentRange>)
    ensures
        r is Ok <==> FIRST_SECOND <= second <= LAST_SECOND,
        r matches Ok(t) ==> (t is Some <==> FIRST_RFC3339_SECOND <= second),
        r matches Ok(Some(t)) ==> t@ == rfc3339_of(second as int),
{
    match OffsetDateTime::from_unix_timestamp(second) {
        Ok(t) => Ok(t.format(&Rfc3339).ok()),
        Err(e) => Err(e),
    }
}

/// `OffsetDateTime::from_unix_timestamp_nanos`, then `OffsetDateTime::format`
/// with `Rfc3339`. There is a text from the year 0 on, and it depends on the
/// instant alone.
#[verifier::external_body]
fn format_nanos(nanos: i128) -> (r: Option<String>)
    requires
        is_nano(nanos as int),
    ensures
        r is Some <==> has_text(nanos as int),
        r matches Some(t) ==> t@ == rfc3339_at(nanos as int),
{
    OffsetDateTime::from_unix_timestamp_nanos(nanos).ok().and_then(|t| t.format(&Rfc3339).ok())
}

/// `OffsetDateTime::now_utc`, then `OffsetDateTime::unix_timestamp_nanos`. The
/// instant of the call, which lies in the years -9999 to 9999; nothing is said of
/// which it is.
#[verifier::external_body]
fn read_nanos() -> (r: i128)
    ensures
        is_nano(r as int),
{
    OffsetDateTime::now_utc().unix_timestamp_nanos()
}

/// `OffsetDateTime::now_utc`, then `OffsetDateTime::unix_timestamp`. The second
/// of the moment of the call, which lies in the years -9999 to 9999; nothing is
/// said of which it is.
#[verifier::external_body]
fn read_clock() -> (r: i64)
    ensures
        FIRST_SECOND <= r <= LAST_SECOND,
{
    OffsetDateTime::now_utc().unix_timestamp()
}

/// Why a second has no text.
#[derive(Clone, Copy, Debug, PartialEq, Eq, Structural)]
pub enum ClockError {
    /// The second lies outside the years that the clock can name.
    FromUnixTimestamp,
}

/// A text of an instant, or the epoch where there is none.
pub open spec fn text_or_epoch(text: Option<Seq<char>>) -> Seq<char> {
    match text {
        Some(t) => t,
        None => epoch_text(),
    }
}

/// The text given, or the text of the Unix epoch.
pub fn or_epoch(text: Option<String>) -> (r: String)
    ensures
        r@ == text_or_epoch(
            match text {
                Some(t) => Some(t@),
                None => None,
            },
        ),
{
    match text {
        Some(t) => t,
        None => "1970-01-01T00:00:00Z".to_owned(),
    }
}

/// The text of the present moment; the epoch where the moment has no text.
pub fn now_rfc3339() -> (r: String)
    ensures
        is_instant_text(r@),
{
    let nanos = read_nanos();
    let r = or_epoch(format_nanos(nanos));
    assert(r@ == instant_text(nanos as int));
    r
}

/// The present second since the Unix epoch.
pub fn now_unix() -> (r: i64)
    ensures
        FIRST_SECOND <= r <= LAST_SECOND,
{
    read_clock()
}

/// What text a second has.
pub open spec fn second_post(second: i64, r: Result<String, ClockError>) -> bool {
    if FIRST_SECOND <= second <= LAST_SECOND {
        r matches Ok(t) && t@ == instant_text(second * NANOS_PER_SECOND)
    } else {
        r == Err::<String, ClockError>(ClockError::FromUnixTimestamp)
    }
}

/// The text of a second since the Unix epoch. A second before the year 0 has
/// the text of the epoch; one outside the clock's range has none.
pub fn unix_to_rfc3339(second: i64) -> (r: Result<String, ClockError>)
    ensures
        second_post(second, r),
        r is Ok <==> FIRST_SECOND <= second <= LAST_SECOND,
        r matches Ok(t) ==> t@ == (if FIRST_RFC3339_SECOND <= second {
            rfc3339_of(second as int)
        } else {
            epoch_text()
        }),
{
    match format_second(second) {
        Ok(text) => Ok(or_epoch(text)),
        Err(_) => Err(ClockError::FromUnixTimestamp),
    }
}

} // verus!
