//! What a locked-out caller is told, and how long it is held back.
//!
//! The wait itself is not done here. `bounce_auth` decides one step of it from
//! the current time; whoever runs the module sends the message, sleeps, reads the
//! clock and asks again.

use vstd::prelude::*;
use crate::instant::{lemma_plus_seconds, Instant};
use crate::result_code::PamResultCode;
use crate::settings::Settings;
use crate::tally::{Decision, Tally, MAX_LOCKOUT_SECONDS};
use crate::text::{decimal_text, push_signed_decimal};

verus! {

/// The strftime pattern in which the end of a lockout is shown.
pub const UNLOCK_TIME_PATTERN: &'static str = "%Y-%m-%d %I:%M:%S %p";

/// A count with its unit, the unit in the singular for a count of one.
pub open spec fn counted(value: int, singular: Seq<char>, plural: Seq<char>) -> Seq<char> {
    decimal_text(value) + " "@ + (if value == 1 {
        singular
    } else {
        plural
    })
}

/// The hours of a countdown; nothing for less than one hour.
pub open spec fn hours_part(hours: int) -> Seq<char> {
    if hours > 0 {
        counted(hours, "hour"@, "hours"@) + ", "@
    } else {
        Seq::<char>::empty()
    }
}

/// The minutes of a countdown; nothing for no minute.
pub open spec fn minutes_part(minutes: int) -> Seq<char> {
    if minutes > 0 {
        counted(minutes, "minute"@, "minutes"@) + " and "@
    } else {
        Seq::<char>::empty()
    }
}

/// The seconds of a countdown, which are always shown.
pub open spec fn seconds_part(seconds: int) -> Seq<char> {
    counted(seconds, "second"@, "seconds"@)
}

/// The remaining time in words. No time left reads `..`. Otherwise the hours
/// and the minutes are named where there are any, and the seconds always:
/// `2 hours, 24 minutes and 5 seconds`. For a time that has already passed,
/// only the seconds past the last full minute are named, with their sign.
pub open spec fn countdown_text(seconds: int) -> Seq<char> {
    if seconds == 0 {
        ".."@
    } else if seconds > 0 {
        hours_part(seconds / 3600) + minutes_part((seconds / 60) % 60) + seconds_part(
            seconds % 60,
        )
    } else {
        seconds_part(-((-seconds) % 60))
    }
}

/// The message that counts down to the end of the lockout.
pub open spec fn countdown_message(seconds: int) -> Seq<char> {
    "Account locked! Unlocking in "@ + countdown_text(seconds) + "."@
}

/// The message that names the end of the lockout.
pub open spec fn locked_until_message(time: Seq<char>) -> Seq<char> {
    "Account locked until "@ + time + "."@
}

/// Appends a count with its unit.
fn push_counted(out: &mut String, value: i64, singular: &str, plural: &str)
    ensures
        final(out)@ == old(out)@ + counted(value as int, singular@, plural@),
{
    push_signed_decimal(out, value);
    out.append(" ");
    if value == 1 {
        out.append(singular);
    } else {
        out.append(plural);
    }
    assert(out@ =~= old(out)@ + counted(value as int, singular@, plural@));
}

/// Writes the remaining time in words; see `countdown_text`.
pub fn format_remaining_countdown_time(remaining_seconds: i64) -> (r: String)
    ensures
        r@ == countdown_text(remaining_seconds as int),
{
    if remaining_seconds == 0 {
        return "..".to_owned();
    }
    let mut out = String::new();
    if remaining_seconds > 0 {
        let hours: i64 = remaining_seconds / 3600;
        let minutes: i64 = (remaining_seconds / 60) % 60;
        let seconds: i64 = remaining_seconds % 60;
        if hours > 0 {
            push_counted(&mut out, hours, "hour", "hours");
            out.append(", ");
        }
        assert(out@ =~= hours_part(hours as int));
        if minutes > 0 {
            push_counted(&mut out, minutes, "minute", "minutes");
            out.append(" and ");
        }
        assert(out@ =~= hours_part(hours as int) + minutes_part(minutes as int));
        push_counted(&mut out, seconds, "second", "seconds");
        assert(out@ =~= countdown_text(remaining_seconds as int));
    } else {
        let past: u64 = (-(remaining_seconds + 1)) as u64 + 1;
        let seconds: i64 = -((past % 60) as i64);
        push_counted(&mut out, seconds, "second", "seconds");
        assert(out@ =~= countdown_text(remaining_seconds as int));
    }
    out
}

/// One step of holding back a caller.
#[derive(Debug, Clone, PartialEq, Eq)]
pub enum Bounce {
    /// Hand this code back to the host at once.
    Done(PamResultCode),
    /// Send the message to the user, then hand the code back.
    Tell(String, PamResultCode),
    /// Send the message, if there is one, sleep for a second, and ask again
    /// with the time it is then.
    Wait(Option<String>),
}

/// A step of holding back a caller, with its message as a sequence.
pub enum BounceView {
    Done(PamResultCode),
    Tell(Seq<char>, PamResultCode),
    Wait(Option<Seq<char>>),
}

impl View for Bounce {
    type V = BounceView;

    open spec fn view(&self) -> BounceView {
        match self {
            Bounce::Done(code) => BounceView::Done(*code),
            Bounce::Tell(message, code) => BounceView::Tell(message@, *code),
            Bounce::Wait(None) => BounceView::Wait(None),
            Bounce::Wait(Some(message)) => BounceView::Wait(Some(message@)),
        }
    }
}

/// The time left until `unlock`, seen at `now`, in whole seconds and never
/// shown as more than 24 hours.
pub open spec fn shown_seconds(now: Instant, unlock: Instant) -> int {
    if now.spec_seconds_until(unlock) > MAX_LOCKOUT_SECONDS {
        MAX_LOCKOUT_SECONDS as int
    } else {
        now.spec_seconds_until(unlock)
    }
}

/// The step that follows from a decision at the instant `now`.
///
/// An unlocked principal is admitted. A locked one is, without countdown,
/// told the end of the lockout and denied; if that instant cannot be written,
/// it is denied without a message. With countdown it waits while `now` is
/// before the end, with a message on every even second left, and is admitted
/// once the end is reached.
pub open spec fn spec_bounce(decision: Decision, countdown: bool, now: Instant) -> BounceView {
    match decision {
        Decision::Unlocked => BounceView::Done(PamResultCode::PAM_SUCCESS),
        Decision::Locked(unlock) => if !countdown {
            spec_deny_until(unlock.spec_format(UNLOCK_TIME_PATTERN@))
        } else if now.as_nanos() < unlock.as_nanos() {
            spec_wait(shown_seconds(now, unlock))
        } else {
            BounceView::Done(PamResultCode::PAM_SUCCESS)
        },
    }
}

/// The step that denies a locked-out caller without countdown: it is told
/// the end of the lockout as `time` writes it, and is denied without a word
/// where there is nothing to write.
pub open spec fn spec_deny_until(time: Option<Seq<char>>) -> BounceView {
    match time {
        Some(time) => BounceView::Tell(locked_until_message(time), PamResultCode::PAM_AUTH_ERR),
        None => BounceView::Done(PamResultCode::PAM_AUTH_ERR),
    }
}

/// Denies a locked-out caller; see `spec_deny_until`.
pub fn deny_until(time: Option<&str>) -> (r: Bounce)
    ensures
        r@ == spec_deny_until(
            match time {
                Some(time) => Some(time@),
                None => None,
            },
        ),
{
    match time {
        Some(time) => {
            let mut message = "Account locked until ".to_owned();
            message.append(time);
            message.append(".");
            assert(message@ =~= locked_until_message(time@));
            Bounce::Tell(message, PamResultCode::PAM_AUTH_ERR)
        },
        None => Bounce::Done(PamResultCode::PAM_AUTH_ERR),
    }
}

/// Tells a waiting caller how long is left, on every even second.
pub open spec fn spec_wait(shown: int) -> BounceView {
    if shown % 2 == 0 {
        BounceView::Wait(Some(countdown_message(shown)))
    } else {
        BounceView::Wait(None)
    }
}

/// The step that lets a caller wait, with `shown` seconds left to show; see
/// `spec_wait`.
pub fn wait(shown: i64) -> (r: Bounce)
    ensures
        r@ == spec_wait(shown as int),
{
    if shown % 2 == 0 {
        let mut message = "Account locked! Unlocking in ".to_owned();
        let words = format_remaining_countdown_time(shown);
        message.append(words.as_str());
        message.append(".");
        assert(message@ =~= countdown_message(shown as int));
        Bounce::Wait(Some(message))
    } else {
        Bounce::Wait(None)
    }
}

/// One step for a decision that has been made; see `spec_bounce`.
pub fn bounce_step(decision: Decision, countdown: bool, now: Instant) -> (r: Bounce)
    ensures
        r@ == spec_bounce(decision, countdown, now),
{
    match decision {
        Decision::Unlocked => Bounce::Done(PamResultCode::PAM_SUCCESS),
        Decision::Locked(unlock) => {
            if !countdown {
                match unlock.format(UNLOCK_TIME_PATTERN) {
                    Some(time) => deny_until(Some(time.as_str())),
                    None => deny_until(None),
                }
            } else if now.is_before(&unlock) {
                let left: u64 = now.seconds_until(&unlock);
                let shown: i64 = if left > MAX_LOCKOUT_SECONDS as u64 {
                    MAX_LOCKOUT_SECONDS
                } else {
                    left as i64
                };
                wait(shown)
            } else {
                Bounce::Done(PamResultCode::PAM_SUCCESS)
            }
        },
    }
}

/// Decides on the tally and takes one step; `PAM_USER_UNKNOWN` is handed back
/// where the settings hold no principal.
pub fn bounce_auth(settings: &Settings, tally: &Tally, raw_delay: i64, now: Instant) -> (r:
    Bounce)
    requires
        tally.can_decide(settings.spec_exempt(), settings.config.free_tries as int, raw_delay as int),
    ensures
        settings.user is None ==> r@ == BounceView::Done(PamResultCode::PAM_USER_UNKNOWN),
        settings.user is Some ==> r@ == spec_bounce(
            tally.spec_decision(
                settings.spec_exempt(),
                settings.config.free_tries as int,
                raw_delay as int,
            ),
            settings.config.countdown,
            now,
        ),
{
    match tally.decision(settings, raw_delay) {
        Ok(decision) => bounce_step(decision, settings.config.countdown, now),
        Err(code) => Bounce::Done(code),
    }
}

/// With countdown, a locked-out caller waits exactly while the end of the
/// lockout lies ahead, is admitted from that instant on, and is never
/// denied. The time that a message names is never more than 24 hours.
pub proof fn lemma_countdown_ends(unlock: Instant, now: Instant)
    ensures
        now.as_nanos() < unlock.as_nanos() <==> spec_bounce(Decision::Locked(unlock), true, now)
            is Wait,
        now.as_nanos() >= unlock.as_nanos() <==> spec_bounce(Decision::Locked(unlock), true, now)
            == BounceView::Done(PamResultCode::PAM_SUCCESS),
        0 <= shown_seconds(now, unlock) <= MAX_LOCKOUT_SECONDS,
{
}

/// The wait has an end: a caller that asks again after more seconds than
/// were left is admitted.
pub proof fn lemma_wait_is_bounded(now: Instant, unlock: Instant, seconds: int)
    requires
        now.wf(),
        unlock.wf(),
        seconds > now.spec_seconds_until(unlock),
        now.spec_secs() + seconds <= i64::MAX,
    ensures
        spec_bounce(Decision::Locked(unlock), true, now.spec_plus_seconds(seconds))
            == BounceView::Done(PamResultCode::PAM_SUCCESS),
{
    lemma_plus_seconds(now, seconds);
    let left = unlock.as_nanos() - now.as_nanos();
    if left > 0 {
        assert(left < (left / 1_000_000_000 + 1) * 1_000_000_000) by (nonlinear_arith);
        assert((left / 1_000_000_000 + 1) * 1_000_000_000 <= seconds * 1_000_000_000)
            by (nonlinear_arith)
            requires
                seconds > left / 1_000_000_000,
        ;
    }
}

/// An exempt principal is admitted at once, whatever its tally holds and
/// whether or not a countdown is configured; so is every principal whose
/// count is within the free tries.
pub proof fn lemma_unlocked_is_admitted(
    tally: Tally,
    exempt: bool,
    free_tries: int,
    raw: int,
    countdown: bool,
    now: Instant,
)
    requires
        exempt || tally.failures_count <= free_tries,
    ensures
        spec_bounce(tally.spec_decision(exempt, free_tries, raw), countdown, now)
            == BounceView::Done(PamResultCode::PAM_SUCCESS),
{
}

/// Without countdown, a locked-out caller is denied at once, whatever the
/// time is: it never waits and is never admitted.
pub proof fn lemma_no_countdown_denies(unlock: Instant, now: Instant)
    ensures
        spec_bounce(Decision::Locked(unlock), false, now) matches BounceView::Tell(_, code)
            ==> code == PamResultCode::PAM_AUTH_ERR,
        spec_bounce(Decision::Locked(unlock), false, now) is Tell || spec_bounce(
            Decision::Locked(unlock),
            false,
            now,
        ) == BounceView::Done(PamResultCode::PAM_AUTH_ERR),
{
}

} // verus!
