//! The timer catalog and its configuration grammar.
//!
//! Durations are stored as whole milliseconds. On disk they are written as
//! `mm:ss` or `hh:mm:ss`; parsing and rendering of that shape live here and
//! carry exact contracts, so the unverified layer only moves text around.

use crate::error::Error;
use crate::model::{TimerModel, TrackingModel};
use crate::util::{pad2_rep, push_pad2};
use vstd::prelude::*;

verus! {

use vstd::string::StrSliceExecFns;
use vstd::string::StringExecFns;

/// The desktop notification attached to a timer.
#[derive(Debug, Clone)]
pub struct Notification {
    pub title: String,
    /// One is picked at random each time the timer fires; `{}` inside it is
    /// replaced by the elapsed time.
    pub descriptions: Vec<String>,
    /// Seconds on screen; 0 keeps the notification up forever.
    pub timeout: Option<u32>,
}

/// Thresholds of the user-activity heuristic, in milliseconds of idleness.
#[derive(Debug, Clone, Copy, PartialEq, Eq, Structural)]
pub struct InputTracking {
    pub pause_after_ms: u64,
    pub reset_after_ms: u64,
}

impl View for InputTracking {
    type V = TrackingModel;

    open spec fn view(&self) -> TrackingModel {
        TrackingModel {
            pause_after: self.pause_after_ms as nat,
            reset_after: self.reset_after_ms as nat,
        }
    }
}

/// One timer definition: its schedule plus the side effects it triggers.
#[derive(Debug, Clone)]
pub struct Timer {
    /// Milliseconds between recurrences; positive in a valid catalog.
    pub interval_ms: u64,
    /// Optional milliseconds before the first occurrence.
    pub initial_delay_ms: Option<u64>,
    /// Decline factor in hundredths: 100 halves each successive wait.
    pub decline_centi: u64,
    pub notification: Option<Notification>,
    /// Path of a sound file to play on firing.
    pub sound: Option<String>,
    /// Shell command to run on firing.
    pub command: Option<String>,
}

impl View for Timer {
    type V = TimerModel;

    open spec fn view(&self) -> TimerModel {
        TimerModel {
            interval: self.interval_ms as nat,
            initial_delay: match self.initial_delay_ms {
                Option::Some(d) => Option::Some(d as nat),
                Option::None => Option::None,
            },
            decline: self.decline_centi as nat,
        }
    }
}

/// The whole configuration: the timer catalog and the optional activity
/// tracking thresholds.
#[derive(Debug, Clone)]
pub struct Config {
    pub timers: Vec<Timer>,
    pub input_tracking: Option<InputTracking>,
}

impl Config {
    /// A catalog the scheduler can run on: at least one timer, and no
    /// zero-length interval.
    pub open spec fn valid(&self) -> bool {
        &&& self.timers@.len() >= 1
        &&& forall|i: int| 0 <= i < self.timers@.len() ==> self.timers@[i].interval_ms > 0
    }

    /// Rejects a catalog the scheduler cannot run on, naming the reason.
    pub fn validate(&self) -> (r: Result<(), Error>)
        ensures
            match r {
                Result::Ok(_) => self.valid(),
                Result::Err(e) => !self.valid() && e is Config,
            },
    {
        if self.timers.len() == 0 {
            return Result::Err(
                Error::Config(String::from_str("at least one timer must be configured")),
            );
        }
        let n = self.timers.len();
        let mut i: usize = 0;
        while i < n
            invariant
                n == self.timers@.len(),
                0 <= i <= n,
                forall|j: int| 0 <= j < i ==> self.timers@[j].interval_ms > 0,
            decreases n - i,
        {
            if self.timers[i].interval_ms == 0 {
                return Result::Err(
                    Error::Config(String::from_str("timer intervals must be positive")),
                );
            }
            i = i + 1;
        }
        Result::Ok(())
    }
}

/// Whether a value equals its type's default; used when writing the
/// configuration out, to omit a decline of zero.
pub fn is_default(t: &u64) -> (r: bool)
    ensures
        r == (*t == 0),
{
    *t == 0
}

impl Default for Config {
    /// The catalog a fresh installation starts with: a 20-minute microbreak
    /// and an hourly break whose wait declines by a third per firing.
    fn default() -> (c: Config)
        ensures
            c.valid(),
            c.timers@.len() == 2,
            c.timers@[0]@ == (TimerModel {
                interval: 1_200_000,
                initial_delay: Option::None,
                decline: 0,
            }),
            c.timers@[1]@ == (TimerModel {
                interval: 3_600_000,
                initial_delay: Option::None,
                decline: 50,
            }),
            c.timers@[0].notification matches Option::Some(n) && n.title@ == "Microbreak"@
                && n.descriptions@.len() == 3 && n.timeout == Option::Some(10u32),
            c.timers@[1].notification matches Option::Some(n) && n.title@ == "Take a break!"@
                && n.descriptions@.len() == 1 && n.timeout == Option::Some(0u32),
            c.timers@[0].sound is None && c.timers@[0].command is None,
            c.timers@[1].sound is None && c.timers@[1].command is None,
            c.input_tracking is None,
    {
        let mut descriptions0: Vec<String> = Vec::new();
        descriptions0.push(String::from_str("Look away from your screen for 20 seconds."));
        descriptions0.push(String::from_str("Roll your shoulders and stretch your neck."));
        descriptions0.push(String::from_str("Stand up and change your posture."));
        let mut descriptions1: Vec<String> = Vec::new();
        descriptions1.push(
            String::from_str(
                "You've been at your screen for {}. Time for a short walk or a stretch!",
            ),
        );
        let mut timers: Vec<Timer> = Vec::new();
        timers.push(
            Timer {
                interval_ms: 1_200_000,
                initial_delay_ms: Option::None,
                decline_centi: 0,
                notification: Option::Some(
                    Notification {
                        title: String::from_str("Microbreak"),
                        descriptions: descriptions0,
                        timeout: Option::Some(10),
                    },
                ),
                sound: Option::None,
                command: Option::None,
            },
        );
        timers.push(
            Timer {
                interval_ms: 3_600_000,
                initial_delay_ms: Option::None,
                decline_centi: 50,
                notification: Option::Some(
                    Notification {
                        title: String::from_str("Take a break!"),
                        descriptions: descriptions1,
                        timeout: Option::Some(0),
                    },
                ),
                sound: Option::None,
                command: Option::None,
            },
        );
        Config { timers, input_tracking: Option::None }
    }
}

/// A decimal digit.
pub open spec fn is_digit(c: char) -> bool {
    48 <= c as int <= 57
}

/// The numeric value of one digit.
pub open spec fn digit_val(c: char) -> nat {
    (c as int - 48) as nat
}

/// Whether every character of the text is a digit.
pub open spec fn all_digits(s: Seq<char>) -> bool {
    forall|j: int| 0 <= j < s.len() ==> is_digit(s[j])
}

/// The number a digit string denotes.
pub open spec fn digits_val(s: Seq<char>) -> nat
    decreases s.len(),
{
    if s.len() == 0 {
        0
    } else {
        digits_val(s.drop_last()) * 10 + digit_val(s.last())
    }
}

/// A well-formed numeric field: nonempty, all digits, and small enough to
/// hold in 64 bits.
pub open spec fn valid_num(s: Seq<char>) -> bool {
    s.len() > 0 && all_digits(s) && digits_val(s) <= u64::MAX
}

/// Index of the first colon at or after position `i`, or the length of the
/// text when there is none.
pub open spec fn first_colon_from(s: Seq<char>, i: int) -> int
    decreases s.len() - i,
{
    if i < 0 || i >= s.len() {
        s.len() as int
    } else if s[i] == ':' {
        i
    } else {
        first_colon_from(s, i + 1)
    }
}

/// Milliseconds denoted by an `hh:mm:ss` triple of field values.
pub open spec fn clock_value_ms(hours: nat, minutes: nat, secs: nat) -> nat {
    (hours * 3600 + minutes * 60 + secs) * 1000
}

/// The configuration duration grammar: `mm:ss` with seconds 0-59, or
/// `hh:mm:ss` with minutes and seconds 0-59, each field a 64-bit number,
/// the whole naming a number of milliseconds that fits 64 bits.
pub open spec fn parse_duration_spec(s: Seq<char>) -> Option<nat> {
    let c1 = first_colon_from(s, 0);
    let c2 = first_colon_from(s, c1 + 1);
    let c3 = first_colon_from(s, c2 + 1);
    if c1 == s.len() {
        Option::None
    } else if c2 == s.len() {
        let minutes = s.subrange(0, c1);
        let secs = s.subrange(c1 + 1, s.len() as int);
        if valid_num(minutes) && valid_num(secs) && digits_val(secs) <= 59 && clock_value_ms(
            0,
            digits_val(minutes),
            digits_val(secs),
        ) <= u64::MAX {
            Option::Some(clock_value_ms(0, digits_val(minutes), digits_val(secs)))
        } else {
            Option::None
        }
    } else if c3 == s.len() {
        let hours = s.subrange(0, c1);
        let minutes = s.subrange(c1 + 1, c2);
        let secs = s.subrange(c2 + 1, s.len() as int);
        if valid_num(hours) && valid_num(minutes) && valid_num(secs) && digits_val(minutes) <= 59
            && digits_val(secs) <= 59 && clock_value_ms(
            digits_val(hours),
            digits_val(minutes),
            digits_val(secs),
        ) <= u64::MAX {
            Option::Some(
                clock_value_ms(digits_val(hours), digits_val(minutes), digits_val(secs)),
            )
        } else {
            Option::None
        }
    } else {
        Option::None
    }
}

proof fn lemma_colon_skip(s: Seq<char>, i: int)
    requires
        0 <= i < s.len(),
        s[i] != ':',
    ensures
        first_colon_from(s, i) == first_colon_from(s, i + 1),
{
}

proof fn lemma_digits_prefix_le(s: Seq<char>, k: int)
    requires
        0 <= k <= s.len(),
    ensures
        digits_val(s.subrange(0, k)) <= digits_val(s),
    decreases s.len() - k,
{
    if k < s.len() {
        lemma_digits_prefix_le(s, k + 1);
        let p = s.subrange(0, k + 1);
        assert(p.drop_last() =~= s.subrange(0, k));
        assert(digits_val(s.subrange(0, k)) <= digits_val(p));
    } else {
        assert(s.subrange(0, k) =~= s);
    }
}

fn find_colon(s: &str, from: usize) -> (r: usize)
    requires
        from <= s@.len(),
    ensures
        r == first_colon_from(s@, from as int),
        from <= r <= s@.len(),
{
    let n = s.unicode_len();
    let mut i: usize = from;
    while i < n
        invariant
            n == s@.len(),
            from <= i <= n,
            first_colon_from(s@, from as int) == first_colon_from(s@, i as int),
        decreases n - i,
    {
        if s.get_char(i) == ':' {
            return i;
        }
        proof {
            lemma_colon_skip(s@, i as int);
        }
        i = i + 1;
    }
    n
}

/// Reads the digit field `s[from..to]`, or nothing when the field is empty,
/// holds a non-digit, or overflows 64 bits.
fn parse_num(s: &str, from: usize, to: usize) -> (r: Option<u64>)
    requires
        from <= to <= s@.len(),
    ensures
        match r {
            Option::Some(v) => valid_num(s@.subrange(from as int, to as int)) && v == digits_val(
                s@.subrange(from as int, to as int),
            ),
            Option::None => !valid_num(s@.subrange(from as int, to as int)),
        },
{
    if from == to {
        return Option::None;
    }
    let ghost whole = s@.subrange(from as int, to as int);
    let mut acc: u64 = 0;
    let mut i: usize = from;
    while i < to
        invariant
            from <= i <= to <= s@.len(),
            whole == s@.subrange(from as int, to as int),
            all_digits(s@.subrange(from as int, i as int)),
            acc == digits_val(s@.subrange(from as int, i as int)),
        decreases to - i,
    {
        let c = s.get_char(i);
        let cv = c as u32;
        proof {
            assert(s@.subrange(from as int, i as int + 1).drop_last() =~= s@.subrange(
                from as int,
                i as int,
            ));
            assert(s@.subrange(from as int, i as int + 1).last() == s@[i as int]);
        }
        if cv < 48 || cv > 57 {
            proof {
                assert(!is_digit(whole[i - from]));
            }
            return Option::None;
        }
        let d = (cv - 48) as u64;
        let next = match acc.checked_mul(10) {
            Option::Some(t) => t.checked_add(d),
            Option::None => Option::None,
        };
        match next {
            Option::Some(v) => {
                acc = v;
            },
            Option::None => {
                proof {
                    assert(digits_val(s@.subrange(from as int, i as int + 1)) > u64::MAX);
                    lemma_digits_prefix_le(whole, i + 1 - from);
                    assert(whole.subrange(0, i + 1 - from) =~= s@.subrange(
                        from as int,
                        i as int + 1,
                    ));
                }
                return Option::None;
            },
        }
        i = i + 1;
    }
    proof {
        assert(s@.subrange(from as int, to as int) =~= whole);
    }
    Option::Some(acc)
}

/// Reads a duration in the configuration shape, in milliseconds, exactly as
/// `parse_duration_spec` says; anything outside the grammar is a
/// configuration error.
pub fn parse_duration(s: &str) -> (r: Result<u64, Error>)
    ensures
        match parse_duration_spec(s@) {
            Option::Some(v) => r matches Result::Ok(ms) && ms == v,
            Option::None => r matches Result::Err(e) && e is Config,
        },
{
    let n = s.unicode_len();
    let c1 = find_colon(s, 0);
    if c1 == n {
        return Result::Err(
            Error::Config(String::from_str("duration must be in format 'mm:ss' or 'hh:mm:ss'")),
        );
    }
    let c2 = find_colon(s, c1 + 1);
    if c2 == n {
        let minutes = match parse_num(s, 0, c1) {
            Option::Some(v) => v,
            Option::None => {
                return Result::Err(Error::Config(String::from_str("failed to parse minutes")));
            },
        };
        let secs = match parse_num(s, c1 + 1, n) {
            Option::Some(v) => v,
            Option::None => {
                return Result::Err(Error::Config(String::from_str("failed to parse seconds")));
            },
        };
        if secs > 59 {
            return Result::Err(Error::Config(String::from_str("seconds must be in range 0-59")));
        }
        checked_clock_ms(0, minutes, secs)
    } else {
        let c3 = find_colon(s, c2 + 1);
        if c3 != n {
            return Result::Err(
                Error::Config(
                    String::from_str("duration must be in format 'mm:ss' or 'hh:mm:ss'"),
                ),
            );
        }
        let hours = match parse_num(s, 0, c1) {
            Option::Some(v) => v,
            Option::None => {
                return Result::Err(Error::Config(String::from_str("failed to parse hours")));
            },
        };
        let minutes = match parse_num(s, c1 + 1, c2) {
            Option::Some(v) => v,
            Option::None => {
                return Result::Err(Error::Config(String::from_str("failed to parse minutes")));
            },
        };
        let secs = match parse_num(s, c2 + 1, n) {
            Option::Some(v) => v,
            Option::None => {
                return Result::Err(Error::Config(String::from_str("failed to parse seconds")));
            },
        };
        if minutes > 59 {
            return Result::Err(Error::Config(String::from_str("minutes must be in range 0-59")));
        }
        if secs > 59 {
            return Result::Err(Error::Config(String::from_str("seconds must be in range 0-59")));
        }
        checked_clock_ms(hours, minutes, secs)
    }
}

/// The milliseconds of an `hh:mm:ss` triple, or a configuration error when
/// it does not fit 64 bits.
fn checked_clock_ms(hours: u64, minutes: u64, secs: u64) -> (r: Result<u64, Error>)
    ensures
        match r {
            Result::Ok(ms) => ms == clock_value_ms(hours as nat, minutes as nat, secs as nat)
                && ms <= u64::MAX,
            Result::Err(e) => clock_value_ms(hours as nat, minutes as nat, secs as nat) > u64::MAX
                && e is Config,
        },
{
    let total = match hours.checked_mul(3600) {
        Option::Some(h) => match minutes.checked_mul(60) {
            Option::Some(m) => match h.checked_add(m) {
                Option::Some(hm) => hm.checked_add(secs),
                Option::None => Option::None,
            },
            Option::None => Option::None,
        },
        Option::None => Option::None,
    };
    let ms = match total {
        Option::Some(t) => t.checked_mul(1000),
        Option::None => Option::None,
    };
    match ms {
        Option::Some(v) => Result::Ok(v),
        Option::None => Result::Err(Error::Config(String::from_str("duration is too large"))),
    }
}

/// The on-disk shape of a duration: `hh:mm:ss` once there is a whole hour,
/// otherwise `mm:ss`, whole seconds rounded down.
pub open spec fn config_duration_text(ms: nat) -> Seq<char> {
    let total = ms / 1000;
    let hours = total / 3600;
    let minutes = (total % 3600) / 60;
    let secs = total % 60;
    if hours > 0 {
        pad2_rep(hours) + ":"@ + pad2_rep(minutes) + ":"@ + pad2_rep(secs)
    } else {
        pad2_rep(minutes) + ":"@ + pad2_rep(secs)
    }
}

/// Renders a duration for the configuration file, as
/// `config_duration_text` says.
pub fn format_config_duration(ms: u64) -> (r: String)
    ensures
        r@ == config_duration_text(ms as nat),
{
    let total = ms / 1000;
    let hours = total / 3600;
    let minutes = (total % 3600) / 60;
    let secs = total % 60;
    proof {
        reveal_strlit(":");
    }
    let mut out = String::new();
    if hours > 0 {
        push_pad2(&mut out, hours);
        out.append(":");
    }
    push_pad2(&mut out, minutes);
    out.append(":");
    push_pad2(&mut out, secs);
    proof {
        assert(out@ =~= config_duration_text(ms as nat));
    }
    out
}

} // verus!
