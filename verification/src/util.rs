//! Text helpers: decimal rendering, the human-readable duration shape, the
//! `{}` placeholder substitution used in notification bodies, and the
//! notification timeout policy.

use vstd::prelude::*;

verus! {

use vstd::string::StrSliceExecFns;
use vstd::string::StringExecFns;

/// The character for one decimal digit.
pub open spec fn digit_char(d: nat) -> char {
    if d == 0 {
        '0'
    } else if d == 1 {
        '1'
    } else if d == 2 {
        '2'
    } else if d == 3 {
        '3'
    } else if d == 4 {
        '4'
    } else if d == 5 {
        '5'
    } else if d == 6 {
        '6'
    } else if d == 7 {
        '7'
    } else if d == 8 {
        '8'
    } else {
        '9'
    }
}

/// The decimal representation of a number, without leading zeroes (a single
/// zero for zero itself).
pub open spec fn dec_rep(n: nat) -> Seq<char>
    decreases n,
{
    if n < 10 {
        seq![digit_char(n)]
    } else {
        dec_rep(n / 10).push(digit_char(n % 10))
    }
}

/// The decimal representation padded with a zero to at least two digits.
pub open spec fn pad2_rep(n: nat) -> Seq<char> {
    if n < 10 {
        seq!['0'] + dec_rep(n)
    } else {
        dec_rep(n)
    }
}

fn digit_str(d: u64) -> (r: &'static str)
    requires
        d < 10,
    ensures
        r@ == seq![digit_char(d as nat)],
{
    proof {
        reveal_strlit("0");
        reveal_strlit("1");
        reveal_strlit("2");
        reveal_strlit("3");
        reveal_strlit("4");
        reveal_strlit("5");
        reveal_strlit("6");
        reveal_strlit("7");
        reveal_strlit("8");
        reveal_strlit("9");
    }
    let r = if d == 0 {
        "0"
    } else if d == 1 {
        "1"
    } else if d == 2 {
        "2"
    } else if d == 3 {
        "3"
    } else if d == 4 {
        "4"
    } else if d == 5 {
        "5"
    } else if d == 6 {
        "6"
    } else if d == 7 {
        "7"
    } else if d == 8 {
        "8"
    } else {
        "9"
    };
    proof {
        assert(r@ =~= seq![digit_char(d as nat)]);
    }
    r
}

/// Appends the decimal representation of `n` to `out`.
pub fn push_dec(out: &mut String, n: u64)
    ensures
        final(out)@ == old(out)@ + dec_rep(n as nat),
    decreases n,
{
    if n < 10 {
        out.append(digit_str(n));
    } else {
        push_dec(out, n / 10);
        out.append(digit_str(n % 10));
        proof {
            assert(old(out)@ + dec_rep(n as nat) =~= (old(out)@ + dec_rep(n as nat / 10)) + seq![
                digit_char(n as nat % 10),
            ]);
        }
    }
}

/// Appends `n` in decimal, zero-padded to at least two digits.
pub fn push_pad2(out: &mut String, n: u64)
    ensures
        final(out)@ == old(out)@ + pad2_rep(n as nat),
{
    if n < 10 {
        proof {
            reveal_strlit("0");
            assert("0"@ =~= seq!['0']);
        }
        out.append("0");
    }
    push_dec(out, n);
    proof {
        if n < 10 {
            assert(old(out)@ + pad2_rep(n as nat) =~= (old(out)@ + seq!['0']) + dec_rep(n as nat));
        }
    }
}

/// Milliseconds rounded to the nearest whole second, half up.
pub open spec fn rounded_secs(ms: nat) -> nat {
    ms / 1000 + if ms % 1000 >= 500 {
        1nat
    } else {
        0nat
    }
}

/// The human-readable shape of a duration: seconds rounded to the nearest,
/// then `mm:ss`, preceded by the hours (`hh:`) when any, preceded by the
/// days (`Nd `) when any.
pub open spec fn duration_text(ms: nat) -> Seq<char> {
    let total = rounded_secs(ms);
    let days = total / 86400;
    let hours = (total % 86400) / 3600;
    let minutes = (total % 3600) / 60;
    let secs = total % 60;
    (if days > 0 {
        dec_rep(days) + "d "@
    } else {
        Seq::empty()
    }) + (if hours > 0 {
        pad2_rep(hours) + ":"@
    } else {
        Seq::empty()
    }) + pad2_rep(minutes) + ":"@ + pad2_rep(secs)
}

/// Renders a duration in milliseconds as text, as `duration_text` says.
pub fn format_duration(ms: u64) -> (r: String)
    ensures
        r@ == duration_text(ms as nat),
{
    let total: u64 = ms / 1000 + if ms % 1000 >= 500 {
        1
    } else {
        0
    };
    let days = total / 86400;
    let hours = (total % 86400) / 3600;
    let minutes = (total % 3600) / 60;
    let secs = total % 60;
    proof {
        reveal_strlit("d ");
        reveal_strlit(":");
    }
    let mut out = String::new();
    if days > 0 {
        push_dec(&mut out, days);
        out.append("d ");
    }
    if hours > 0 {
        push_pad2(&mut out, hours);
        out.append(":");
    }
    push_pad2(&mut out, minutes);
    out.append(":");
    push_pad2(&mut out, secs);
    proof {
        assert(out@ =~= duration_text(ms as nat));
    }
    out
}

/// Index of the first `{}` placeholder at or after position `i`, or the
/// length of the text when there is none.
pub open spec fn first_placeholder_from(s: Seq<char>, i: int) -> int
    recommends
        0 <= i,
    decreases s.len() - i,
{
    if i < 0 || i + 1 >= s.len() {
        s.len() as int
    } else if s[i] == '{' && s[i + 1] == '}' {
        i
    } else {
        first_placeholder_from(s, i + 1)
    }
}

/// The source text with its first `{}` placeholder, if any, replaced by the
/// input text.
pub open spec fn formatted(s: Seq<char>, input: Seq<char>) -> Seq<char> {
    let i = first_placeholder_from(s, 0);
    if i == s.len() {
        s
    } else {
        s.subrange(0, i) + input + s.subrange(i + 2, s.len() as int)
    }
}

proof fn lemma_placeholder_skip(s: Seq<char>, i: int)
    requires
        0 <= i,
        i + 1 < s.len(),
        !(s[i] == '{' && s[i + 1] == '}'),
    ensures
        first_placeholder_from(s, i) == first_placeholder_from(s, i + 1),
{
}

/// Returns the source with the first `{}` replaced by the input argument;
/// a source without a placeholder comes back unchanged.
pub fn format_string(source: &str, input: &str) -> (r: String)
    ensures
        r@ == formatted(source@, input@),
{
    let n = source.unicode_len();
    let mut i: usize = 0;
    let mut found: usize = n;
    while found == n && n - i > 1
        invariant
            n == source@.len(),
            0 <= i <= n,
            found <= n,
            found == n ==> first_placeholder_from(source@, 0) == first_placeholder_from(
                source@,
                i as int,
            ),
            found < n ==> first_placeholder_from(source@, 0) == found && found + 2 <= n,
        decreases (n - i) + (if found == n {
            1int
        } else {
            0int
        }),
    {
        if source.get_char(i) == '{' && source.get_char(i + 1) == '}' {
            found = i;
        } else {
            proof {
                lemma_placeholder_skip(source@, i as int);
            }
            i = i + 1;
        }
    }
    if found < n {
        let pre = source.substring_char(0, found);
        let post = source.substring_char(found + 2, n);
        let mut out = String::from_str(pre);
        out.append(input);
        out.append(post);
        proof {
            assert(out@ =~= formatted(source@, input@));
        }
        out
    } else {
        proof {
            assert(first_placeholder_from(source@, i as int) == source@.len());
        }
        source.to_owned()
    }
}

/// How long a notification stays on screen: the notifier's own default, or
/// forever, or a fixed number of milliseconds.
#[derive(Debug, Clone, Copy, PartialEq, Eq, Structural)]
pub enum TimeoutKind {
    DefaultExpiry,
    Never,
    Millis(u64),
}

/// The display policy for a notification's configured timeout, in seconds:
/// absent means the notifier's default, zero means it never expires and is
/// urgent, anything else is that many seconds. Returns the expiry and
/// whether the notification is urgent.
pub fn notification_timeout(timeout: Option<u32>) -> (r: (TimeoutKind, bool))
    ensures
        r == match timeout {
            Option::None => (TimeoutKind::DefaultExpiry, false),
            Option::Some(0u32) => (TimeoutKind::Never, true),
            Option::Some(t) => (TimeoutKind::Millis((t * 1000) as u64), false),
        },
{
    match timeout {
        Option::None => (TimeoutKind::DefaultExpiry, false),
        Option::Some(t) => {
            if t == 0 {
                (TimeoutKind::Never, true)
            } else {
                ((TimeoutKind::Millis((t as u64) * 1000)), false)
            }
        },
    }
}

} // verus!
