//! Location sharing: the live-location interval rule, the live-location
//! start/stop decisions and the text of a shared location pin.

use vstd::prelude::*;
use crate::client::SessionControl;
use crate::error::{ShadowLinkError, ErrorModel};

verus! {

/// The shortest interval between live location updates, in seconds.
pub const MIN_LIVE_INTERVAL_SECS: u64 = 5;

/// The live-location interval actually used for a requested one: at least
/// five seconds.
pub fn clamp_interval_secs(interval_secs: u64) -> (secs: u64)
    ensures
        secs == (if interval_secs < MIN_LIVE_INTERVAL_SECS { MIN_LIVE_INTERVAL_SECS } else { interval_secs }),
{
    if interval_secs < MIN_LIVE_INTERVAL_SECS {
        MIN_LIVE_INTERVAL_SECS
    } else {
        interval_secs
    }
}

/// The error of a live-location request with an interval under five
/// seconds.
pub open spec fn interval_too_short_error() -> ErrorModel {
    ErrorModel::Internal { message: "Live location interval must be at least 5 seconds"@ }
}

/// Checks the interval of a live-location request: under five seconds it is
/// refused.
pub fn check_live_interval(interval_secs: u64) -> (res: Result<(), ShadowLinkError>)
    ensures
        interval_secs >= MIN_LIVE_INTERVAL_SECS ==> res is Ok,
        interval_secs < MIN_LIVE_INTERVAL_SECS ==> (res matches Err(e) && e@ == interval_too_short_error()),
{
    if interval_secs < MIN_LIVE_INTERVAL_SECS {
        Err(ShadowLinkError::Internal { message: "Live location interval must be at least 5 seconds".to_owned() })
    } else {
        Ok(())
    }
}

/// The control state with live location running (or not).
pub open spec fn with_live_location(c: SessionControl, running: bool) -> SessionControl {
    SessionControl { sync_running: c.sync_running, live_location_running: running }
}

/// The error of starting live location while it already runs.
pub open spec fn already_running_error() -> ErrorModel {
    ErrorModel::OperationFailed {
        operation: "start_live_location"@,
        detail: "Live location is already running"@,
    }
}

/// Decides whether live location may start: it fails while a broadcast
/// already runs; otherwise it is recorded as running.
pub fn begin_live_location(control: &mut SessionControl) -> (res: Result<(), ShadowLinkError>)
    ensures
        old(control).live_location_running ==> (res matches Err(e) && e@ == already_running_error()
            && *final(control) == *old(control)),
        !old(control).live_location_running ==> (res is Ok && *final(control) == with_live_location(
            *old(control),
            true,
        )),
{
    if control.live_location_running {
        Err(ShadowLinkError::operation_failed("start_live_location", "Live location is already running"))
    } else {
        control.live_location_running = true;
        Ok(())
    }
}

/// Stops live location. Returns whether a broadcast was running (and so
/// has a task to abort); stopping when none runs changes nothing.
pub fn end_live_location(control: &mut SessionControl) -> (was_running: bool)
    ensures
        was_running == old(control).live_location_running,
        *final(control) == with_live_location(*old(control), false),
{
    let was_running = control.live_location_running;
    control.live_location_running = false;
    was_running
}

/// Live location runs at most once at a time: once started, starting again
/// fails until it is stopped, and after a stop it can start again. The sync
/// state is never touched.
pub proof fn lemma_live_location_exclusive(c: SessionControl)
    ensures
        with_live_location(c, true).live_location_running,
        !with_live_location(with_live_location(c, true), false).live_location_running,
        with_live_location(with_live_location(c, true), false) == with_live_location(c, false),
        with_live_location(c, false).sync_running == c.sync_running,
        with_live_location(c, true).sync_running == c.sync_running,
{
}

/// The text of a shared location pin: its description, or "Location".
pub fn location_body(description: Option<&str>) -> (body: String)
    ensures
        match description {
            Some(d) => body@ == d@,
            None => body@ == "Location"@,
        },
{
    match description {
        Some(d) => d.to_owned(),
        None => "Location".to_owned(),
    }
}

} // verus!
