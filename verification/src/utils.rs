//! Small things that the rest leans on: log levels, edges, durations in
//! milliseconds, and what to do when a handler has failed.
use vstd::prelude::*;
use core::time::Duration;
use crate::compositor::Compositor;
use crate::flags::has_bits;

verus! {

/// How much is logged. A lower level logs more.
#[allow(non_camel_case_types)]
#[derive(Clone, Copy, Debug, PartialEq, Eq, Structural)]
pub enum LogVerbosity {
    L_SILENT,
    L_ERROR,
    L_INFO,
    L_DEBUG,
}

/// The callback that is in place while no callback was given: it drops the
/// message.
pub fn dummy_callback(_verbosity: LogVerbosity, _message: String) {
}

pub const WLR_EDGE_NONE: u32 = 0;

pub const WLR_EDGE_TOP: u32 = 1;

pub const WLR_EDGE_BOTTOM: u32 = 2;

pub const WLR_EDGE_LEFT: u32 = 4;

pub const WLR_EDGE_RIGHT: u32 = 8;

/// All edge bits.
pub const WLR_EDGE_ALL: u32 = 15;

/// A set of edges of a rectangle.
#[derive(Clone, Copy, Debug, PartialEq, Eq, Structural)]
pub struct Edges {
    bits: u32,
}

impl View for Edges {
    type V = u32;

    closed spec fn view(&self) -> u32 {
        self.bits
    }
}

impl Edges {
    /// The edges among `bits`; bits that name none are dropped.
    pub fn from_bits_truncate(bits: u32) -> (edges: Self)
        ensures
            edges@ == bits & WLR_EDGE_ALL,
    {
        Edges { bits: bits & WLR_EDGE_ALL }
    }

    pub fn bits(&self) -> (bits: u32)
        ensures
            bits == self@,
    {
        self.bits
    }

    /// Whether every edge of `other` is in this set.
    pub fn contains(&self, other: Edges) -> (b: bool)
        ensures
            b == has_bits(self@, other@),
    {
        self.bits & other.bits == other.bits
    }
}

/// The whole seconds of a duration, as `Duration::as_secs` returns them.
pub uninterp spec fn duration_secs(d: Duration) -> u64;

/// The part of a duration below one second, in nanoseconds, as
/// `Duration::subsec_nanos` returns it.
pub uninterp spec fn duration_subsec_nanos(d: Duration) -> u32;

/// Calls `Duration::as_secs`. The result is named, not stated.
#[verifier::external_body]
fn as_secs(d: &Duration) -> (secs: u64)
    ensures
        secs == duration_secs(*d),
{
    d.as_secs()
}

/// Calls `Duration::subsec_nanos`. The result is named, not stated.
#[verifier::external_body]
fn subsec_nanos(d: &Duration) -> (nanos: u32)
    ensures
        nanos == duration_subsec_nanos(*d),
{
    d.subsec_nanos()
}

/// Calls `Duration::new` with less than a second's worth of nanoseconds, so
/// that nothing is carried into the seconds: the duration then has these
/// seconds and these nanoseconds, as std documents.
#[verifier::external_body]
fn duration_new(secs: u64, nanos: u32) -> (d: Duration)
    requires
        nanos < 1_000_000_000,
    ensures
        duration_secs(d) == secs,
        duration_subsec_nanos(d) == nanos,
{
    Duration::new(secs, nanos)
}

/// The duration that a clock reading of `tv_sec` seconds and `tv_nsec`
/// nanoseconds stands for, or `None` where the reading is none that a clock
/// gives: a negative part, or a second or more of nanoseconds.
pub fn duration_from_timespec(tv_sec: i64, tv_nsec: i64) -> (d: Option<Duration>)
    ensures
        d is Some <==> 0 <= tv_sec && 0 <= tv_nsec < 1_000_000_000,
        d is Some ==> duration_secs(d.unwrap()) == tv_sec && duration_subsec_nanos(d.unwrap())
            == tv_nsec,
{
    if 0 <= tv_sec && 0 <= tv_nsec && tv_nsec < 1_000_000_000 {
        Some(duration_new(tv_sec as u64, tv_nsec as u32))
    } else {
        None
    }
}

/// Conversion to whole milliseconds.
pub trait ToMS: Sized {
    /// The value in milliseconds, rounded down.
    spec fn ms(self) -> int;

    /// The value in milliseconds, rounded down, where it fits.
    fn to_ms(self) -> (ms: u32)
        requires
            0 <= self.ms() <= u32::MAX,
        ensures
            ms == self.ms(),
    ;
}

impl ToMS for Duration {
    open spec fn ms(self) -> int {
        duration_secs(self) * 1000 + duration_subsec_nanos(self) / 1_000_000
    }

    fn to_ms(self) -> (ms: u32) {
        let seconds_delta = as_secs(&self);
        let nano_delta = subsec_nanos(&self);
        (seconds_delta as u32 * 1000) + nano_delta / 1000000
    }
}

/// The duration in milliseconds, rounded down, or `None` where that is more
/// than a `u32` holds.
pub fn checked_to_ms(d: Duration) -> (ms: Option<u32>)
    ensures
        d.ms() <= u32::MAX ==> ms == Some(d.ms() as u32),
        d.ms() > u32::MAX ==> ms is None,
{
    let secs = as_secs(&d);
    let nanos = subsec_nanos(&d);
    if secs <= 4_294_967 && secs * 1000 + (nanos / 1000000) as u64 <= 4_294_967_295 {
        Some(d.to_ms())
    } else {
        None
    }
}

/// What the caller of a handler does after the handler has come back.
#[derive(Clone, Copy, Debug, PartialEq, Eq, Structural)]
pub enum UnwindAction {
    /// The handler returned: go on.
    Continue,
    /// The handler failed and there is no compositor: end the process.
    Abort,
    /// The handler failed: the fault is recorded and the event loop was told
    /// to end.
    Terminate,
}

/// Decides what follows a handler call. `res` is `Err` with the fault's
/// message where the handler failed; `compositor` is `None` where no
/// compositor has been set up.
///
/// A fault is recorded in the compositor, which is told to end its event
/// loop; without a compositor nothing can be recorded.
pub fn handle_unwind<T>(compositor: &mut Option<Compositor>, res: Result<T, String>) -> (action:
    UnwindAction)
    ensures
        res is Ok ==> action == UnwindAction::Continue && *final(compositor) == *old(compositor),
        res is Err && *old(compositor) is None ==> action == UnwindAction::Abort
            && *final(compositor) is None,
        res is Err && *old(compositor) is Some ==> action == UnwindAction::Terminate
            && *final(compositor) is Some && ({
            let before = old(compositor).unwrap();
            let after = final(compositor).unwrap();
            &&& after.fault() == Some(res->Err_0@)
            &&& !after.running()
            &&& after.locked() == before.locked()
            &&& after.tokens == before.tokens
            &&& after.state == before.state
        }),
{
    match res {
        Ok(_) => UnwindAction::Continue,
        Err(message) => {
            match compositor {
                None => UnwindAction::Abort,
                Some(compositor) => {
                    compositor.save_panic_error(message);
                    compositor.terminate();
                    UnwindAction::Terminate
                },
            }
        },
    }
}

} // verus!
