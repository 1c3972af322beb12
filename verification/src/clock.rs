use std::time::{Duration, Instant};
use vstd::prelude::*;

verus! {

/// `std::time::Instant`: a reading of the monotonic clock, of which the
/// verifier sees nothing.
#[verifier::external_type_specification]
#[verifier::external_body]
pub struct ExInstant(Instant);

/// `Instant::now`: the reading of the monotonic clock at the call. Nothing
/// is claimed of it.
#[verifier::external_body]
fn clock_now() -> Instant {
    Instant::now()
}

/// `Instant::elapsed`: the time that has passed since `start`. Nothing is
/// claimed of it.
#[verifier::external_body]
fn clock_elapsed(start: &Instant) -> Duration {
    start.elapsed()
}

/// `Duration::as_millis`: the whole milliseconds in `span`. Nothing is
/// claimed of it.
#[verifier::external_body]
fn whole_millis(span: &Duration) -> u128 {
    span.as_millis()
}

/// The moment a recording began, while one is running.
#[derive(Debug, Clone, Copy)]
pub struct SessionAnchor {
    start: Option<Instant>,
}

impl SessionAnchor {
    /// Whether a recording is running.
    pub closed spec fn is_set(&self) -> bool {
        self.start is Some
    }

    /// The anchor outside of any recording.
    pub fn new() -> (anchor: SessionAnchor)
        ensures
            !anchor.is_set(),
    {
        SessionAnchor { start: None }
    }

    /// Whether a recording is running.
    pub fn active(&self) -> (active: bool)
        ensures
            active == self.is_set(),
    {
        self.start.is_some()
    }
}

/// The low 32 bits of a count of milliseconds: the form in which events
/// carry their time.
pub open spec fn wrapped_millis(millis: u128) -> u32 {
    (millis % 0x1_0000_0000) as u32
}

/// Cuts a count of milliseconds down to the 32 bits that an event holds.
pub fn elapse_from_millis(millis: u128) -> (elapse: u32)
    ensures
        elapse == wrapped_millis(millis),
{
    (millis % 0x1_0000_0000) as u32
}

/// Begins a recording now.
pub fn init_instant(anchor: &mut SessionAnchor)
    ensures
        final(anchor).is_set(),
{
    anchor.start = Some(clock_now());
}

/// Ends the recording, if one is running.
pub fn clean_instant(anchor: &mut SessionAnchor)
    ensures
        !final(anchor).is_set(),
{
    anchor.start = None;
}

/// Milliseconds since the recording began, cut to 32 bits; zero outside
/// of any recording.
pub fn instant_elapse_millis(anchor: &SessionAnchor) -> (elapse: u32)
    ensures
        !anchor.is_set() ==> elapse == 0,
{
    match &anchor.start {
        Some(start) => {
            let span = clock_elapsed(start);
            elapse_from_millis(whole_millis(&span))
        },
        None => 0,
    }
}

} // verus!
