//! The hooks of the module, after the host has resolved the principal and the
//! tally has been opened.

use vstd::prelude::*;
use crate::actions::Actions;
use crate::bounce::{bounce_auth, spec_bounce, Bounce, BounceView};
use crate::instant::Instant;
use crate::result_code::PamResultCode;
use crate::settings::Settings;
use crate::store::{notice_of, text_of, updated, Updated};
use crate::tally::Tally;

verus! {

/// The lockout module.
#[derive(Debug, Clone, Copy, PartialEq, Eq, Structural)]
pub struct Pamauthramp;

/// What the hooks need of their arguments so that the new count and the
/// instants that they work out fit.
pub open spec fn can_run(settings: Settings, tally: Tally, now: Instant, raw: int) -> bool {
    settings.user is Some && settings.action is Some ==> {
        &&& tally.can_apply(settings.action.unwrap(), now, raw, settings.config.free_tries as int)
        &&& tally.spec_apply(
            settings.action.unwrap(),
            now,
            raw,
            settings.config.free_tries as int,
        ).can_decide(settings.spec_exempt(), settings.config.free_tries as int, raw)
    }
}

/// The first step that the authentication hook takes on the tally that the
/// action has left: none but to admit after `AUTHSUCC`, and otherwise the
/// step that follows from the decision on that tally.
pub open spec fn spec_first_step(settings: Settings, tally: Tally, now: Instant, raw: int)
    -> BounceView {
    if settings.action == Some(Actions::AUTHSUCC) {
        BounceView::Done(PamResultCode::PAM_SUCCESS)
    } else {
        spec_bounce(
            tally.spec_decision(settings.spec_exempt(), settings.config.free_tries as int, raw),
            settings.config.countdown,
            now,
        )
    }
}

/// What the authentication hook gives: the tally that the update leaves, the
/// document to write, and the first step on that tally; or the error of the
/// update.
pub open spec fn authenticated(tally: Tally, settings: Settings, now: Instant, raw: int) -> Result<
    (Tally, Option<Seq<char>>, BounceView),
    PamResultCode,
> {
    match updated(tally, settings, now, raw) {
        Ok((next, write)) => Ok((next, write, spec_first_step(settings, next, now, raw))),
        Err(code) => Err(code),
    }
}

impl Pamauthramp {
    /// Whether the hooks can be called; see `can_run`.
    pub fn check_run(settings: &Settings, tally: &Tally, now: Instant, raw_delay: i64) -> (r: bool)
        ensures
            r == can_run(*settings, *tally, now, raw_delay as int),
    {
        if settings.user.is_none() {
            return true;
        }
        match settings.get_action() {
            Err(_) => true,
            Ok(action) => {
                if !tally.check_apply(action, now, raw_delay, settings.config.free_tries) {
                    return false;
                }
                let mut next = *tally;
                next.apply(action, now, raw_delay, settings.config.free_tries);
                next.check_decide(settings, raw_delay)
            },
        }
    }

    /// The authentication hook: applies the action to the tally, says what to
    /// write, and takes the first step of holding the caller back; see
    /// `authenticated`.
    ///
    /// The errors are those of `Tally::update`, and the tally is changed as
    /// it says. After `AUTHSUCC` the caller is admitted. After `PREAUTH` and
    /// `AUTHFAIL` the step is the one that `bounce_auth` takes on the tally
    /// as it then stands.
    pub fn sm_authenticate(settings: &Settings, tally: &mut Tally, now: Instant, raw_delay: i64)
        -> (r: Result<(Updated, Bounce), PamResultCode>)
        requires
            can_run(*settings, *old(tally), now, raw_delay as int),
        ensures
            match authenticated(*old(tally), *settings, now, raw_delay as int) {
                Ok((next, write, step)) => {
                    &&& r matches Ok((u, b)) && text_of(u.write) == write && u.notice == notice_of(
                        settings.action.unwrap(),
                        *old(tally),
                        next,
                        settings.config.free_tries as int,
                    ) && b@ == step
                    &&& *final(tally) == next
                },
                Err(code) => r == Err::<(Updated, Bounce), PamResultCode>(code) && *final(tally)
                    == *old(tally),
            },
    {
        let updated = match tally.update(settings, now, raw_delay) {
            Ok(updated) => updated,
            Err(code) => {
                return Err(code);
            },
        };
        let step = match settings.action {
            Some(Actions::AUTHSUCC) => Bounce::Done(PamResultCode::PAM_SUCCESS),
            _ => bounce_auth(settings, tally, raw_delay, now),
        };
        Ok((updated, step))
    }

    /// The account hook, which runs after a successful authentication: it
    /// applies the action to the tally and says what to write, as
    /// `Tally::update` does. `Ok` stands for `PAM_SUCCESS`.
    pub fn acct_mgmt(settings: &Settings, tally: &mut Tally, now: Instant, raw_delay: i64) -> (r:
        Result<Updated, PamResultCode>)
        requires
            can_run(*settings, *old(tally), now, raw_delay as int),
        ensures
            match updated(*old(tally), *settings, now, raw_delay as int) {
                Ok((next, write)) => {
                    &&& r matches Ok(u) && text_of(u.write) == write && u.notice == notice_of(
                        settings.action.unwrap(),
                        *old(tally),
                        next,
                        settings.config.free_tries as int,
                    )
                    &&& *final(tally) == next
                },
                Err(code) => r == Err::<Updated, PamResultCode>(code) && *final(tally) == *old(
                    tally,
                ),
            },
    {
        tally.update(settings, now, raw_delay)
    }

    /// The credential hook, which has nothing to do.
    pub fn sm_setcred() -> (r: PamResultCode)
        ensures
            r == PamResultCode::PAM_SUCCESS,
    {
        PamResultCode::PAM_SUCCESS
    }
}

} // verus!
