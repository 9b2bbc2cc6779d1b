use authramp::actions::Actions;
use authramp::bounce::{
    bounce_auth, bounce_step, deny_until, format_remaining_countdown_time, wait, Bounce,
};
use authramp::config::Config;
use authramp::instant::Instant;
use authramp::result_code::PamResultCode;
use authramp::settings::{Settings, User};
use authramp::tally::{Decision, Tally};

fn settings_for(uid: u32, countdown: bool) -> Settings {
    Settings {
        user: Some(User::new(uid, "someone", uid)),
        action: Some(Actions::PREAUTH),
        pam_hook: String::from("auth"),
        config: Config {
            tally_dir: String::from("/var/run/authramp"),
            free_tries: 6,
            ramp_multiplier: 50,
            base_delay_seconds: 30,
            even_deny_root: false,
            countdown,
        },
    }
}

#[test]
fn test_format_remaining_time() {
    assert_eq!(
        format_remaining_countdown_time(2 * 3600 + 24 * 60 + 5),
        "2 hours, 24 minutes and 5 seconds"
    );
    assert_eq!(format_remaining_countdown_time(3600 + 60), "1 hour, 1 minute and 0 seconds");
    assert_eq!(format_remaining_countdown_time(35), "35 seconds");
    assert_eq!(format_remaining_countdown_time(1), "1 second");
    assert_eq!(format_remaining_countdown_time(0), "..");
}

#[test]
fn countdown_words_at_the_edges() {
    assert_eq!(format_remaining_countdown_time(59), "59 seconds");
    assert_eq!(format_remaining_countdown_time(60), "1 minute and 0 seconds");
    assert_eq!(format_remaining_countdown_time(61), "1 minute and 1 second");
    assert_eq!(format_remaining_countdown_time(3599), "59 minutes and 59 seconds");
    assert_eq!(format_remaining_countdown_time(3600), "1 hour, 0 seconds");
    assert_eq!(format_remaining_countdown_time(3601), "1 hour, 1 second");
    assert_eq!(format_remaining_countdown_time(7200), "2 hours, 0 seconds");
    assert_eq!(format_remaining_countdown_time(86_400), "24 hours, 0 seconds");
    assert_eq!(format_remaining_countdown_time(86_399), "23 hours, 59 minutes and 59 seconds");
    assert_eq!(
        format_remaining_countdown_time(i64::MAX),
        "2562047788015215 hours, 30 minutes and 7 seconds"
    );
}

#[test]
fn countdown_words_for_time_that_has_passed() {
    assert_eq!(format_remaining_countdown_time(-1), "-1 seconds");
    assert_eq!(format_remaining_countdown_time(-59), "-59 seconds");
    assert_eq!(format_remaining_countdown_time(-60), "0 seconds");
    assert_eq!(format_remaining_countdown_time(-3661), "-1 seconds");
    assert_eq!(format_remaining_countdown_time(i64::MIN), "-8 seconds");
}

#[test]
fn unlocked_is_admitted() {
    let now = Instant::from_secs(1_700_000_000);
    assert_eq!(bounce_step(Decision::Unlocked, true, now), Bounce::Done(PamResultCode::PAM_SUCCESS));
    assert_eq!(bounce_step(Decision::Unlocked, false, now), Bounce::Done(PamResultCode::PAM_SUCCESS));
}

#[test]
fn without_countdown_the_end_is_told_and_the_caller_denied() {
    let unlock = Instant::from_secs(1_672_617_600);
    let step = bounce_step(Decision::Locked(unlock), false, Instant::from_secs(1_672_531_200));
    assert_eq!(
        step,
        Bounce::Tell(
            String::from("Account locked until 2023-01-02 12:00:00 AM."),
            PamResultCode::PAM_AUTH_ERR
        )
    );
    let after = bounce_step(Decision::Locked(unlock), false, Instant::from_secs(1_672_700_000));
    assert_eq!(after, step);

    let unlock = Instant::from_secs(1_672_531_200 + 13 * 3600 + 5 * 60 + 9);
    assert_eq!(
        bounce_step(Decision::Locked(unlock), false, Instant::from_secs(0)),
        Bounce::Tell(
            String::from("Account locked until 2023-01-01 01:05:09 PM."),
            PamResultCode::PAM_AUTH_ERR
        )
    );
}

#[test]
fn without_countdown_an_unwritable_end_still_denies() {
    let unlock = Instant::from_secs(i64::MAX);
    assert_eq!(
        bounce_step(Decision::Locked(unlock), false, Instant::from_secs(0)),
        Bounce::Done(PamResultCode::PAM_AUTH_ERR)
    );
}

#[test]
fn with_countdown_the_caller_waits_until_the_end() {
    let unlock = Instant::from_secs(1_700_000_030);
    let locked = Decision::Locked(unlock);
    assert_eq!(
        bounce_step(locked, true, Instant::from_secs(1_700_000_000)),
        Bounce::Wait(Some(String::from("Account locked! Unlocking in 30 seconds.")))
    );
    assert_eq!(bounce_step(locked, true, Instant::from_secs(1_700_000_001)), Bounce::Wait(None));
    assert_eq!(
        bounce_step(locked, true, Instant::from_secs(1_700_000_002)),
        Bounce::Wait(Some(String::from("Account locked! Unlocking in 28 seconds.")))
    );
    assert_eq!(bounce_step(locked, true, Instant::from_secs(1_700_000_029)), Bounce::Wait(None));
    assert_eq!(
        bounce_step(locked, true, Instant::new(1_700_000_029, 1).unwrap()),
        Bounce::Wait(Some(String::from("Account locked! Unlocking in ...")))
    );
    assert_eq!(
        bounce_step(locked, true, Instant::new(1_700_000_029, 999_999_999).unwrap()),
        Bounce::Wait(Some(String::from("Account locked! Unlocking in ...")))
    );
    assert_eq!(
        bounce_step(locked, true, Instant::from_secs(1_700_000_030)),
        Bounce::Done(PamResultCode::PAM_SUCCESS)
    );
    assert_eq!(
        bounce_step(locked, true, Instant::from_secs(1_700_000_031)),
        Bounce::Done(PamResultCode::PAM_SUCCESS)
    );
}

#[test]
fn countdown_counts_whole_seconds() {
    let unlock = Instant::new(1_700_000_030, 500_000_000).unwrap();
    let locked = Decision::Locked(unlock);
    assert_eq!(
        bounce_step(locked, true, Instant::new(1_700_000_000, 400_000_000).unwrap()),
        Bounce::Wait(Some(String::from("Account locked! Unlocking in 30 seconds.")))
    );
    assert_eq!(
        bounce_step(locked, true, Instant::new(1_700_000_000, 600_000_000).unwrap()),
        Bounce::Wait(None)
    );
    assert_eq!(
        bounce_step(locked, true, Instant::new(1_699_996_368, 0).unwrap()),
        Bounce::Wait(Some(String::from(
            "Account locked! Unlocking in 1 hour, 1 minute and 2 seconds."
        )))
    );
}

#[test]
fn shown_time_is_capped_at_a_day() {
    let unlock = Instant::from_secs(1_700_000_000);
    let locked = Decision::Locked(unlock);
    assert_eq!(
        bounce_step(locked, true, Instant::from_secs(1_700_000_000 - 86_400)),
        Bounce::Wait(Some(String::from("Account locked! Unlocking in 24 hours, 0 seconds.")))
    );
    assert_eq!(
        bounce_step(locked, true, Instant::from_secs(1_700_000_000 - 86_401)),
        Bounce::Wait(Some(String::from("Account locked! Unlocking in 24 hours, 0 seconds.")))
    );
    assert_eq!(
        bounce_step(locked, true, Instant::from_secs(0)),
        Bounce::Wait(Some(String::from("Account locked! Unlocking in 24 hours, 0 seconds.")))
    );
    assert_eq!(
        bounce_step(Decision::Locked(Instant::from_secs(i64::MAX)), true, Instant::from_secs(i64::MIN)),
        Bounce::Wait(Some(String::from("Account locked! Unlocking in 24 hours, 0 seconds.")))
    );
    assert_eq!(
        bounce_step(locked, true, Instant::from_secs(1_700_000_000 - 86_398)),
        Bounce::Wait(Some(String::from(
            "Account locked! Unlocking in 23 hours, 59 minutes and 58 seconds."
        )))
    );
}

#[test]
fn bounce_decides_and_steps() {
    let now = Instant::from_secs(1_700_000_010);
    let locked = Tally {
        failures_count: 7,
        failure_instant: Instant::from_secs(1_700_000_000),
        unlock_instant: Some(Instant::from_secs(1_700_000_030)),
    };
    assert_eq!(
        bounce_auth(&settings_for(1000, true), &locked, 30, now),
        Bounce::Wait(Some(String::from("Account locked! Unlocking in 20 seconds.")))
    );
    assert_eq!(
        bounce_auth(&settings_for(1000, false), &locked, 30, now),
        Bounce::Tell(
            String::from("Account locked until 2023-11-14 10:13:50 PM."),
            PamResultCode::PAM_AUTH_ERR
        )
    );
    assert_eq!(
        bounce_auth(&settings_for(0, true), &locked, 30, now),
        Bounce::Done(PamResultCode::PAM_SUCCESS)
    );
    assert_eq!(
        bounce_auth(&settings_for(0, false), &locked, 30, now),
        Bounce::Done(PamResultCode::PAM_SUCCESS)
    );
    let mut deny_root = settings_for(0, false);
    deny_root.config.even_deny_root = true;
    assert!(matches!(bounce_auth(&deny_root, &locked, 30, now), Bounce::Tell(_, _)));

    let free = Tally { failures_count: 6, ..locked };
    assert_eq!(
        bounce_auth(&settings_for(1000, true), &free, 30, now),
        Bounce::Done(PamResultCode::PAM_SUCCESS)
    );
    assert_eq!(
        bounce_auth(&settings_for(1000, false), &free, 30, now),
        Bounce::Done(PamResultCode::PAM_SUCCESS)
    );

    let mut nobody = settings_for(1000, true);
    nobody.user = None;
    assert_eq!(
        bounce_auth(&nobody, &locked, 30, now),
        Bounce::Done(PamResultCode::PAM_USER_UNKNOWN)
    );

    let unset = Tally { unlock_instant: None, ..locked };
    assert_eq!(
        bounce_auth(&settings_for(1000, true), &unset, 99, now),
        Bounce::Wait(None)
    );
    assert_eq!(
        bounce_auth(&settings_for(1000, true), &unset, 100, now),
        Bounce::Wait(Some(String::from(
            "Account locked! Unlocking in 1 minute and 30 seconds."
        )))
    );
}

#[test]
fn a_wait_runs_down_to_admission() {
    let settings = settings_for(1000, true);
    let tally = Tally {
        failures_count: 8,
        failure_instant: Instant::from_secs(1_700_000_000),
        unlock_instant: Some(Instant::from_secs(1_700_000_099)),
    };
    let mut now = Instant::from_secs(1_700_000_000);
    let mut waited = 0;
    let mut messages = 0;
    loop {
        match bounce_auth(&settings, &tally, 99, now) {
            Bounce::Wait(message) => {
                if message.is_some() {
                    messages += 1;
                }
                waited += 1;
                now = now.plus_seconds(1).unwrap();
            }
            Bounce::Done(code) => {
                assert_eq!(code, PamResultCode::PAM_SUCCESS);
                break;
            }
            Bounce::Tell(_, _) => panic!("a countdown never denies"),
        }
        assert!(waited <= 99);
    }
    assert_eq!(waited, 99);
    assert_eq!(messages, 49);
}

#[test]
fn denial_names_the_end() {
    assert_eq!(
        deny_until(Some("2023-01-02 12:00:00 AM")),
        Bounce::Tell(
            String::from("Account locked until 2023-01-02 12:00:00 AM."),
            PamResultCode::PAM_AUTH_ERR
        )
    );
    assert_eq!(
        deny_until(Some("")),
        Bounce::Tell(String::from("Account locked until ."), PamResultCode::PAM_AUTH_ERR)
    );
    assert_eq!(deny_until(None), Bounce::Done(PamResultCode::PAM_AUTH_ERR));
}

#[test]
fn waiting_speaks_on_even_seconds() {
    assert_eq!(wait(30), Bounce::Wait(Some(String::from("Account locked! Unlocking in 30 seconds."))));
    assert_eq!(wait(29), Bounce::Wait(None));
    assert_eq!(wait(1), Bounce::Wait(None));
    assert_eq!(wait(0), Bounce::Wait(Some(String::from("Account locked! Unlocking in ..."))));
    assert_eq!(
        wait(3722),
        Bounce::Wait(Some(String::from(
            "Account locked! Unlocking in 1 hour, 2 minutes and 2 seconds."
        )))
    );
    assert_eq!(wait(-1), Bounce::Wait(None));
    assert_eq!(wait(-2), Bounce::Wait(Some(String::from("Account locked! Unlocking in -2 seconds."))));
}
