//! Wall-clock text for the event log and the proxy uptime shown in the
//! status card.

use core::time::Duration;
use std::time::{Instant, SystemTime};
use vstd::prelude::*;

use crate::text::{decimal, push_decimal, push_two_digits, two_digits};

verus! {

#[verifier::external_type_specification]
#[verifier::external_body]
pub struct ExSystemTime(SystemTime);

#[verifier::external_type_specification]
#[verifier::external_body]
pub struct ExInstant(Instant);

/// `SystemTime::now`: the wall clock at the moment of the call. Nothing is
/// claimed of the value.
#[verifier::external_body]
fn system_time_now() -> SystemTime {
    SystemTime::now()
}

/// `SystemTime::duration_since` with `UNIX_EPOCH`: the time since the epoch,
/// `None` where the clock stands before it. Nothing more is claimed, as
/// `Duration` has no model here.
#[verifier::external_body]
fn since_unix_epoch(t: &SystemTime) -> Option<Duration> {
    t.duration_since(std::time::UNIX_EPOCH).ok()
}

/// The whole seconds of a duration, as `Duration::as_secs` gives them.
pub uninterp spec fn duration_secs(d: Duration) -> u64;

/// `Duration::as_secs`: the whole seconds of a duration, a function of the
/// duration alone.
#[verifier::external_body]
fn duration_as_secs(d: &Duration) -> (r: u64)
    ensures
        r == duration_secs(*d),
{
    d.as_secs()
}

/// `Instant::now`: a reading of the monotonic clock. Nothing is claimed of it.
#[verifier::external_body]
pub(crate) fn instant_now() -> Instant {
    Instant::now()
}

/// `Instant::elapsed`: time passed since `t`. Nothing is claimed of it.
#[verifier::external_body]
pub(crate) fn instant_elapsed(t: &Instant) -> Duration {
    t.elapsed()
}

/// `HH:MM:SS` for `secs` seconds after the Unix epoch, read at UTC+3.
pub open spec fn clock_text(secs: nat) -> Seq<char> {
    two_digits(((secs / 3600) + 3) % 24) + seq![':'] + two_digits((secs / 60) % 60) + seq![':']
        + two_digits(secs % 60)
}

/// The uptime note of the status card for a proxy that has been up `secs`
/// seconds.
pub open spec fn uptime_text(secs: nat) -> Seq<char> {
    if secs < 60 {
        "щойно піднято"@
    } else if secs < 3600 {
        "аптайм "@ + decimal(secs / 60) + " хв"@
    } else {
        "аптайм "@ + decimal(secs / 3600) + " год "@ + decimal((secs % 3600) / 60) + " хв"@
    }
}

/// `HH:MM:SS` for a time of day.
pub open spec fn hms_text(h: nat, m: nat, sec: nat) -> Seq<char> {
    two_digits(h) + seq![':'] + two_digits(m) + seq![':'] + two_digits(sec)
}

/// `HH:MM:SS` for hours, minutes and seconds.
pub fn hms_str(h: u16, m: u16, sec: u16) -> (r: String)
    requires
        h < 100,
        m < 100,
        sec < 100,
    ensures
        r@ == hms_text(h as nat, m as nat, sec as nat),
        r@.len() == 8,
{
    let mut s = String::new();
    push_two_digits(&mut s, h as u64);
    push_char_colon(&mut s);
    push_two_digits(&mut s, m as u64);
    push_char_colon(&mut s);
    push_two_digits(&mut s, sec as u64);
    assert(s@ =~= hms_text(h as nat, m as nat, sec as nat));
    s
}

/// `HH:MM:SS` at UTC+3 for a count of seconds since the Unix epoch.
pub fn clock_str(secs: u64) -> (r: String)
    ensures
        r@ == clock_text(secs as nat),
        r@.len() == 8,
{
    let mut s = String::new();
    push_two_digits(&mut s, ((secs / 3600) + 3) % 24);
    push_char_colon(&mut s);
    push_two_digits(&mut s, (secs / 60) % 60);
    push_char_colon(&mut s);
    push_two_digits(&mut s, secs % 60);
    assert(s@ =~= clock_text(secs as nat));
    s
}

fn push_char_colon(s: &mut String)
    ensures
        final(s)@ == old(s)@ + seq![':'],
{
    crate::text::push_char(s, ':');
    assert(final(s)@ =~= old(s)@ + seq![':']);
}

/// The current time of day, `HH:MM:SS` at UTC+3 (where the system offers
/// no local time); 03:00:00 where the system clock stands before the epoch.
pub fn now_str() -> (r: String)
    ensures
        exists|secs: nat| r@ == clock_text(secs),
        r@.len() == 8,
{
    let t = system_time_now();
    let secs = match since_unix_epoch(&t) {
        Some(d) => duration_as_secs(&d),
        None => 0,
    };
    let r = clock_str(secs);
    assert(r@ == clock_text(secs as nat));
    r
}

/// The uptime note for `secs` seconds.
pub fn uptime_text_for_secs(secs: u64) -> (r: String)
    ensures
        r@ == uptime_text(secs as nat),
{
    if secs < 60 {
        String::from_str("щойно піднято")
    } else if secs < 3600 {
        let mut s = String::from_str("аптайм ");
        push_decimal(&mut s, secs / 60);
        s.append(" хв");
        s
    } else {
        let mut s = String::from_str("аптайм ");
        push_decimal(&mut s, secs / 3600);
        s.append(" год ");
        push_decimal(&mut s, (secs % 3600) / 60);
        s.append(" хв");
        s
    }
}

/// The uptime note for a proxy that has been up for `d`.
pub fn uptime_str(d: Duration) -> (r: String)
    ensures
        r@ == uptime_text(duration_secs(d) as nat),
{
    let secs = duration_as_secs(&d);
    uptime_text_for_secs(secs)
}

} // verus!
