//! The time-to-live of an invocation: explicit seconds, or a human-readable duration.
use vstd::prelude::*;

verus! {

#[verifier::external_type_specification]
#[verifier::external_body]
pub struct ExDurationError(humantime::DurationError);

/// The whole seconds of the duration that `humantime::parse_duration` reads from a text, if it reads one.
pub uninterp spec fn duration_secs_of(text: Seq<char>) -> Option<u64>;

/// The longest duration text, in characters, that is handed to the parser.
///
/// `humantime::parse_duration` checks its arithmetic, except that it builds a
/// `Duration` from a whole second's worth of nanoseconds without carrying it
/// first, which panics when the seconds already stand at `u64::MAX`. A text
/// that reaches `u64::MAX` seconds needs one span of at least twelve digits
/// (spans of eleven digits or fewer, in sixteen characters, stay below a fifth
/// of it); with its unit that span leaves at most three characters, which
/// cannot make up both the seconds that the span's unit leaves over
/// (`u64::MAX` is no multiple of a year, month, week or day) and the
/// nanoseconds of the carry. So no text within this bound panics.
pub const MAX_DURATION_CHARS: usize = 16;

/// Relies on `humantime::parse_duration` (for instance `1min`, `2h 37min`),
/// with the parsed duration cut to whole seconds: the outcome depends on the text alone.
#[verifier::external_body]
fn parse_duration_secs(text: &str) -> (r: Result<u64, humantime::DurationError>)
    requires
        text@.len() <= MAX_DURATION_CHARS,
    ensures
        match r {
            Ok(secs) => duration_secs_of(text@) == Some(secs),
            Err(_) => duration_secs_of(text@) is None,
        },
{
    match humantime::parse_duration(text) {
        Ok(duration) => Ok(duration.as_secs()),
        Err(e) => Err(e),
    }
}

/// Why a time-to-live could not be chosen.
#[derive(Debug, Clone, Copy, PartialEq, Eq, Structural)]
pub enum TtlError {
    /// The duration text is not a duration.
    InvalidDuration,
}

/// The time-to-live that the options select: explicit seconds win over the duration text.
pub open spec fn selected_ttl(cache_seconds: Option<u64>, cache_duration: Seq<char>) -> Result<u64, TtlError> {
    match cache_seconds {
        Some(secs) => Ok(secs),
        None => match duration_secs_of(cache_duration) {
            Some(secs) => Ok(secs),
            None => Err(TtlError::InvalidDuration),
        },
    }
}

/// Chooses the time-to-live in seconds. The duration text is read only when no
/// explicit number of seconds is given, and must then be at most
/// `MAX_DURATION_CHARS` characters long.
pub fn ttl_seconds(cache_seconds: Option<u64>, cache_duration: &str) -> (r: Result<u64, TtlError>)
    requires
        cache_seconds is None ==> cache_duration@.len() <= MAX_DURATION_CHARS,
    ensures
        r == selected_ttl(cache_seconds, cache_duration@),
{
    match cache_seconds {
        Some(secs) => Ok(secs),
        None => match parse_duration_secs(cache_duration) {
            Ok(secs) => Ok(secs),
            Err(_) => Err(TtlError::InvalidDuration),
        },
    }
}

} // verus!
