//! A break-reminder scheduler: a catalog of recurring timers drives a
//! tick-based state machine that decides when the next break is due,
//! adapting to user activity and to explicit control requests.
//!
//! All durations handled by this crate are in whole milliseconds, and all
//! wall-clock timestamps are Unix seconds.

pub mod config;
pub mod daemon;
pub mod error;
pub mod frame;
pub mod laws;
pub mod model;
pub mod util;

use vstd::prelude::*;

verus! {

use vstd::string::StringExecFns;

/// One event from the external activity feed: the Unix time (seconds) of
/// the most recent detected user input.
#[derive(Debug, Clone, Copy, PartialEq, Eq, Structural)]
pub struct ActivityMessage {
    pub last_input: u64,
}

/// A request arriving on the control socket.
#[derive(Debug, Clone, Copy, PartialEq, Eq, Structural)]
pub enum IpcRequest {
    Status,
    Toggle,
    Reset,
}

/// The reply sent back for one request.
#[derive(Debug, Clone, Copy, PartialEq, Eq, Structural)]
pub enum IpcResponse {
    Ack,
    Status(Status),
}

/// A point-in-time snapshot of the schedule: how long the clock has been
/// running and when the next timer is due, both in milliseconds.
#[derive(Debug, Clone, Copy, PartialEq, Eq, Structural)]
pub struct Status {
    pub elapsed: u64,
    pub next_timer: u64,
}

impl Status {
    pub fn new(elapsed: u64, next_timer: u64) -> (s: Status)
        ensures
            s.elapsed == elapsed,
            s.next_timer == next_timer,
    {
        Status { elapsed, next_timer }
    }

    /// Renders the snapshot as `elapsed/next`, both in the human-readable
    /// duration shape.
    pub fn to_text(&self) -> (r: String)
        ensures
            r@ == util::duration_text(self.elapsed as nat) + "/"@ + util::duration_text(
                self.next_timer as nat,
            ),
    {
        proof {
            reveal_strlit("/");
        }
        let mut out = util::format_duration(self.elapsed);
        out.append("/");
        let rest = util::format_duration(self.next_timer);
        out.append(rest.as_str());
        out
    }
}

/// The filesystem path of the activity-feed socket.
pub fn actived_socket_path() -> (p: String)
    ensures
        p@ == "/run/blink/actived.sock"@,
{
    let s: String = String::from_str("/run/blink/actived.sock");
    s
}

/// Relies on std::time::SystemTime::now and duration_since: the current
/// Unix time in whole seconds; a clock before the epoch reads as zero.
#[verifier::external_body]
pub fn get_unix_time() -> u64 {
    std::time::SystemTime::now()
        .duration_since(std::time::SystemTime::UNIX_EPOCH)
        .map(|d| d.as_secs())
        .unwrap_or(0)
}

/// A duration value, in milliseconds, wrapped for rendering.
pub struct DurationDisplay(pub u64);

impl DurationDisplay {
    /// The human-readable shape of the wrapped duration.
    pub fn to_text(&self) -> (r: String)
        ensures
            r@ == util::duration_text(self.0 as nat),
    {
        util::format_duration(self.0)
    }
}

/// Rendering support for plain millisecond durations.
pub trait DurationExt {
    fn display(&self) -> DurationDisplay;
}

impl DurationExt for u64 {
    fn display(&self) -> (d: DurationDisplay)
        ensures
            d.0 == *self,
    {
        DurationDisplay(*self)
    }
}

} // verus!
