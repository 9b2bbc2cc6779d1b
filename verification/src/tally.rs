//! The tally of one principal and the transitions made on it.

use vstd::prelude::*;
use crate::actions::Actions;
use crate::instant::{lemma_plus_seconds, Instant};
use crate::result_code::PamResultCode;
use crate::settings::Settings;

verus! {

/// No lockout lasts longer than this many seconds: 24 hours.
pub const MAX_LOCKOUT_SECONDS: i64 = 86_400;

/// The delay that is applied for a raw delay of `raw` seconds: the raw delay,
/// cut off at 24 hours.
pub open spec fn capped_delay(raw: int) -> int {
    if raw > MAX_LOCKOUT_SECONDS {
        MAX_LOCKOUT_SECONDS as int
    } else {
        raw
    }
}

/// Whether `from`, moved by the capped delay, is still an instant that fits.
pub open spec fn delay_fits(from: Instant, raw: int) -> bool {
    i64::MIN <= from.spec_secs() + capped_delay(raw) <= i64::MAX
}

/// How far `count` failures are past the free tries, and `None` while they are
/// within them. This is the argument of the delay formula: no delay exists
/// where it is `None`.
pub open spec fn excess_failures(count: int, free_tries: int) -> Option<int> {
    if count > free_tries {
        Some(count - free_tries)
    } else {
        None
    }
}

/// Whether the principal is admitted, or locked out until an instant.
#[derive(Debug, Clone, Copy, PartialEq, Eq)]
pub enum Decision {
    /// The next attempt is admitted.
    Unlocked,
    /// The principal is locked out until the instant given.
    Locked(Instant),
}

/// The failures of one principal.
#[derive(Debug, Clone, Copy, PartialEq, Eq)]
pub struct Tally {
    /// Consecutive failures since the last success. Never negative.
    pub failures_count: i32,
    /// When the last failure happened, or when the tally was made.
    pub failure_instant: Instant,
    /// Until when the principal is locked out, once a failure has set it.
    pub unlock_instant: Option<Instant>,
}

impl Tally {
    /// What every tally keeps that was made or changed here: the count is
    /// not negative, a tally without failures holds no unlock instant, and an
    /// unlock instant is never before the failure it belongs to.
    pub open spec fn wf(self) -> bool {
        &&& self.failures_count >= 0
        &&& self.failure_instant.wf()
        &&& self.failures_count == 0 ==> self.unlock_instant is None
        &&& self.unlock_instant matches Some(t) ==> t.wf() && self.failure_instant.as_nanos()
            <= t.as_nanos()
    }

    /// The tally with no failures, made at `now`.
    pub open spec fn spec_new(now: Instant) -> Tally {
        Tally { failures_count: 0, failure_instant: now, unlock_instant: None }
    }

    /// The count that `action` leaves in the tally.
    pub open spec fn count_after(self, action: Actions) -> int {
        match action {
            Actions::PREAUTH => self.failures_count as int,
            Actions::AUTHSUCC => 0,
            Actions::AUTHFAIL => self.failures_count + 1,
        }
    }

    /// The tally after `action` at the instant `now`, where the delay formula
    /// gives `raw` seconds for the new count.
    ///
    /// `PREAUTH` changes nothing. `AUTHSUCC` clears the count and the unlock
    /// instant. `AUTHFAIL` counts one more failure at `now` and sets the
    /// unlock instant: `now` plus the capped delay once the count is past the
    /// free tries, and `now` itself while it is not.
    pub open spec fn spec_apply(self, action: Actions, now: Instant, raw: int, free_tries: int)
        -> Tally {
        match action {
            Actions::PREAUTH => self,
            Actions::AUTHSUCC => Tally {
                failures_count: 0,
                failure_instant: self.failure_instant,
                unlock_instant: None,
            },
            Actions::AUTHFAIL => Tally {
                failures_count: (self.failures_count + 1) as i32,
                failure_instant: now,
                unlock_instant: Some(
                    if self.failures_count + 1 > free_tries {
                        now.spec_plus_seconds(capped_delay(raw))
                    } else {
                        now
                    },
                ),
            },
        }
    }

    /// The end of the lockout in force: the stored unlock instant, or without
    /// one the last failure plus the capped delay.
    pub open spec fn spec_unlock_at(self, raw: int) -> Instant {
        match self.unlock_instant {
            Some(t) => t,
            None => self.failure_instant.spec_plus_seconds(capped_delay(raw)),
        }
    }

    /// The decision on a tally: locked while the count is past the free
    /// tries, unless the principal is exempt.
    pub open spec fn spec_decision(self, exempt: bool, free_tries: int, raw: int) -> Decision {
        if exempt || self.failures_count <= free_tries {
            Decision::Unlocked
        } else {
            Decision::Locked(self.spec_unlock_at(raw))
        }
    }

    /// What `apply` needs so that the new count and unlock instant fit.
    pub open spec fn can_apply(self, action: Actions, now: Instant, raw: int, free_tries: int)
        -> bool {
        action == Actions::AUTHFAIL ==> {
            &&& self.failures_count < i32::MAX
            &&& self.failures_count + 1 > free_tries ==> delay_fits(now, raw)
        }
    }

    /// What `decision` needs so that the end of the lockout fits.
    pub open spec fn can_decide(self, exempt: bool, free_tries: int, raw: int) -> bool {
        (!exempt && self.failures_count > free_tries && self.unlock_instant is None)
            ==> delay_fits(self.failure_instant, raw)
    }

    /// Whether `apply` can be called; see `can_apply`.
    pub fn check_apply(&self, action: Actions, now: Instant, raw_delay: i64, free_tries: i32)
        -> (r: bool)
        ensures
            r == self.can_apply(action, now, raw_delay as int, free_tries as int),
    {
        match action {
            Actions::AUTHFAIL => {
                if self.failures_count == i32::MAX {
                    false
                } else if self.failures_count + 1 > free_tries {
                    let capped = if raw_delay > MAX_LOCKOUT_SECONDS {
                        MAX_LOCKOUT_SECONDS
                    } else {
                        raw_delay
                    };
                    now.plus_seconds(capped).is_some()
                } else {
                    true
                }
            },
            _ => true,
        }
    }

    /// Whether `decision` can be called; see `can_decide`.
    pub fn check_decide(&self, settings: &Settings, raw_delay: i64) -> (r: bool)
        ensures
            r == self.can_decide(
                settings.spec_exempt(),
                settings.config.free_tries as int,
                raw_delay as int,
            ),
    {
        let exempt = match settings.get_user() {
            Ok(user) => user.uid() == 0 && !settings.config.even_deny_root,
            Err(_) => false,
        };
        if !exempt && self.failures_count > settings.config.free_tries
            && self.unlock_instant.is_none() {
            let capped = if raw_delay > MAX_LOCKOUT_SECONDS {
                MAX_LOCKOUT_SECONDS
            } else {
                raw_delay
            };
            self.failure_instant.plus_seconds(capped).is_some()
        } else {
            true
        }
    }

    /// A tally with no failures, made at `now`.
    pub fn new(now: Instant) -> (r: Tally)
        ensures
            r == Tally::spec_new(now),
    {
        Tally { failures_count: 0, failure_instant: now, unlock_instant: None }
    }

    /// The argument of the delay formula that `action` calls for, and `None`
    /// where the action computes no delay: `AUTHSUCC` never does, and the
    /// others only once the count that they leave is past the free tries.
    pub fn delay_steps(&self, action: Actions, free_tries: i32) -> (r: Option<i64>)
        ensures
            action == Actions::AUTHSUCC ==> r is None,
            action != Actions::AUTHSUCC ==> (match r {
                Some(n) => excess_failures(self.count_after(action), free_tries as int) == Some(
                    n as int,
                ),
                None => excess_failures(self.count_after(action), free_tries as int) is None,
            }),
    {
        let count: i64 = match action {
            Actions::PREAUTH => self.failures_count as i64,
            Actions::AUTHSUCC => {
                return None;
            },
            Actions::AUTHFAIL => self.failures_count as i64 + 1,
        };
        if count > free_tries as i64 {
            Some(count - free_tries as i64)
        } else {
            None
        }
    }

    /// Makes the change that `action` asks for; see `spec_apply`. `raw_delay`
    /// is what the delay formula gives, in seconds, for the argument that
    /// `delay_steps` names; it is not looked at where that is `None`.
    ///
    /// `PREAUTH` leaves the tally as it was. After `AUTHSUCC` the count is zero
    /// and no unlock instant is left, whatever the tally held. After
    /// `AUTHFAIL` the lockout ends at most 24 hours after the failure.
    pub fn apply(&mut self, action: Actions, now: Instant, raw_delay: i64, free_tries: i32)
        requires
            old(self).can_apply(action, now, raw_delay as int, free_tries as int),
        ensures
            *final(self) == old(self).spec_apply(action, now, raw_delay as int, free_tries as int),
            action == Actions::PREAUTH ==> *final(self) == *old(self),
            action == Actions::AUTHSUCC ==> final(self).failures_count == 0
                && final(self).unlock_instant is None,
            action == Actions::AUTHFAIL ==> {
                &&& final(self).failures_count == old(self).failures_count + 1
                &&& final(self).failure_instant == now
                &&& final(self).unlock_instant matches Some(unlock) && unlock.as_nanos()
                    - now.as_nanos() <= MAX_LOCKOUT_SECONDS * 1_000_000_000
            },
    {
        proof {
            use_type_invariant(now);
            if old(self).failures_count + 1 > free_tries && action == Actions::AUTHFAIL {
                lemma_plus_seconds(now, capped_delay(raw_delay as int));
            }
        }
        match action {
            Actions::PREAUTH => {},
            Actions::AUTHSUCC => {
                self.failures_count = 0;
                self.unlock_instant = None;
            },
            Actions::AUTHFAIL => {
                self.failures_count = self.failures_count + 1;
                self.failure_instant = now;
                if self.failures_count > free_tries {
                    let capped = if raw_delay > MAX_LOCKOUT_SECONDS {
                        MAX_LOCKOUT_SECONDS
                    } else {
                        raw_delay
                    };
                    self.unlock_instant = now.plus_seconds(capped);
                } else {
                    self.unlock_instant = Some(now);
                }
            },
        }
    }

    /// The end of the lockout in force; see `spec_unlock_at`.
    pub fn unlock_at(&self, raw_delay: i64) -> (r: Instant)
        requires
            self.unlock_instant is None ==> delay_fits(self.failure_instant, raw_delay as int),
        ensures
            r == self.spec_unlock_at(raw_delay as int),
    {
        match self.unlock_instant {
            Some(t) => t,
            None => {
                let capped = if raw_delay > MAX_LOCKOUT_SECONDS {
                    MAX_LOCKOUT_SECONDS
                } else {
                    raw_delay
                };
                match self.failure_instant.plus_seconds(capped) {
                    Some(t) => t,
                    None => self.failure_instant,
                }
            },
        }
    }

    /// Decides on the tally as it stands; see `spec_decision`. Without a
    /// principal in `settings` nothing is decided and `PAM_USER_UNKNOWN`
    /// comes back.
    pub fn decision(&self, settings: &Settings, raw_delay: i64) -> (r: Result<
        Decision,
        PamResultCode,
    >)
        requires
            self.can_decide(
                settings.spec_exempt(),
                settings.config.free_tries as int,
                raw_delay as int,
            ),
        ensures
            settings.user is None ==> r == Err::<Decision, PamResultCode>(
                PamResultCode::PAM_USER_UNKNOWN,
            ),
            settings.user is Some ==> r == Ok::<Decision, PamResultCode>(
                self.spec_decision(
                    settings.spec_exempt(),
                    settings.config.free_tries as int,
                    raw_delay as int,
                ),
            ),
            settings.spec_exempt() ==> r == Ok::<Decision, PamResultCode>(Decision::Unlocked),
            settings.user is Some && self.failures_count <= settings.config.free_tries ==> r
                == Ok::<Decision, PamResultCode>(Decision::Unlocked),
    {
        let exempt = match settings.get_user() {
            Ok(user) => user.uid() == 0 && !settings.config.even_deny_root,
            Err(code) => {
                return Err(code);
            },
        };
        if exempt || self.failures_count <= settings.config.free_tries {
            Ok(Decision::Unlocked)
        } else {
            Ok(Decision::Locked(self.unlock_at(raw_delay)))
        }
    }
}

/// While the count that an action leaves is within the free tries, the
/// principal is unlocked and no delay exists: the delay formula has no
/// argument, and neither the tally nor the decision depends on what it would
/// give.
pub proof fn lemma_within_free_tries(
    tally: Tally,
    action: Actions,
    exempt: bool,
    now: Instant,
    raw: int,
    other_raw: int,
    free_tries: i32,
)
    requires
        tally.count_after(action) <= free_tries,
    ensures
        excess_failures(tally.count_after(action), free_tries as int) is None,
        tally.spec_apply(action, now, raw, free_tries as int).spec_decision(
            exempt,
            free_tries as int,
            raw,
        ) == Decision::Unlocked,
        tally.spec_apply(action, now, raw, free_tries as int) == tally.spec_apply(
            action,
            now,
            other_raw,
            free_tries as int,
        ),
{
}

/// `PREAUTH` only reads: the tally is the same after it, however often it is
/// applied and whatever the time and the delay are.
pub proof fn lemma_preauth_reads_only(
    tally: Tally,
    now: Instant,
    later: Instant,
    raw: int,
    other_raw: int,
    free_tries: int,
)
    ensures
        tally.spec_apply(Actions::PREAUTH, now, raw, free_tries) == tally,
        tally.spec_apply(Actions::PREAUTH, now, raw, free_tries).spec_apply(
            Actions::PREAUTH,
            later,
            other_raw,
            free_tries,
        ) == tally,
{
}

/// `AUTHSUCC` clears the tally whatever it held: no failures, no unlock
/// instant, and with free tries that are not negative the principal is
/// unlocked.
pub proof fn lemma_success_clears(
    tally: Tally,
    exempt: bool,
    now: Instant,
    raw: int,
    free_tries: int,
)
    ensures
        tally.spec_apply(Actions::AUTHSUCC, now, raw, free_tries).failures_count == 0,
        tally.spec_apply(Actions::AUTHSUCC, now, raw, free_tries).unlock_instant is None,
        free_tries >= 0 ==> tally.spec_apply(Actions::AUTHSUCC, now, raw, free_tries).spec_decision(
            exempt,
            free_tries,
            raw,
        ) == Decision::Unlocked,
{
}

/// No lockout lasts longer than 24 hours, however many failures there are
/// and whatever the delay formula gives: the unlock instant that `AUTHFAIL`
/// sets, and the one that is worked out for a tally without one, are at most
/// 24 hours after the failure.
pub proof fn lemma_lockout_capped(tally: Tally, now: Instant, raw: int, free_tries: int)
    requires
        now.wf(),
        tally.failure_instant.wf(),
        tally.failures_count < i32::MAX,
        tally.failures_count + 1 > free_tries ==> delay_fits(now, raw),
        tally.unlock_instant is None ==> delay_fits(tally.failure_instant, raw),
    ensures
        capped_delay(raw) <= MAX_LOCKOUT_SECONDS,
        tally.spec_apply(Actions::AUTHFAIL, now, raw, free_tries).unlock_instant matches Some(
            unlock,
        ) && unlock.as_nanos() - now.as_nanos() <= MAX_LOCKOUT_SECONDS * 1_000_000_000,
        tally.unlock_instant is None ==> tally.spec_unlock_at(raw).as_nanos()
            - tally.failure_instant.as_nanos() <= MAX_LOCKOUT_SECONDS * 1_000_000_000,
{
    if tally.failures_count + 1 > free_tries {
        lemma_plus_seconds(now, capped_delay(raw));
    }
    if tally.unlock_instant is None {
        lemma_plus_seconds(tally.failure_instant, capped_delay(raw));
    }
}

/// Cutting delays off at 24 hours keeps their order: a longer raw delay
/// never gives a shorter lockout, and gives a longer one as long as it is
/// itself within 24 hours. A delay that is not negative stays so.
pub proof fn lemma_cap_keeps_order(raw: int, longer_raw: int)
    requires
        raw <= longer_raw,
    ensures
        capped_delay(raw) <= capped_delay(longer_raw),
        capped_delay(raw) <= raw,
        raw < longer_raw <= MAX_LOCKOUT_SECONDS ==> capped_delay(raw) < capped_delay(longer_raw),
        raw >= 0 ==> capped_delay(raw) >= 0,
{
}

/// The root principal is unlocked whatever its tally holds, unless the
/// configuration asks to deny root as well.
pub proof fn lemma_root_exempt(tally: Tally, settings: Settings, raw: int)
    requires
        settings.user matches Some(user) && user.spec_uid() == 0,
        !settings.config.even_deny_root,
    ensures
        settings.spec_exempt(),
        tally.spec_decision(settings.spec_exempt(), settings.config.free_tries as int, raw)
            == Decision::Unlocked,
{
}

/// A well-formed tally stays well-formed under every action, as long as the
/// delay is not negative.
pub proof fn lemma_apply_keeps_wf(
    tally: Tally,
    action: Actions,
    now: Instant,
    raw: int,
    free_tries: int,
)
    requires
        tally.wf(),
        now.wf(),
        raw >= 0,
        tally.can_apply(action, now, raw, free_tries),
    ensures
        tally.spec_apply(action, now, raw, free_tries).wf(),
        Tally::spec_new(now).wf(),
{
    if action == Actions::AUTHFAIL && tally.failures_count + 1 > free_tries {
        lemma_plus_seconds(now, capped_delay(raw));
    }
}

} // verus!
