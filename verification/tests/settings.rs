use authramp::actions::Actions;
use authramp::config::Config;
use authramp::result_code::PamResultCode;
use authramp::settings::{Settings, User};

#[test]
fn settings_test_default_settings() {
    let default_settings = Settings::default();
    assert_eq!(default_settings.action, Some(Actions::AUTHSUCC));
    assert!(default_settings.user.is_none());
    assert_eq!(default_settings.config.tally_dir, String::from("/var/run/authramp"));
    assert_eq!(default_settings.config.free_tries, 6);
    assert_eq!(default_settings.config.base_delay_seconds, 30);
    assert_eq!(default_settings.config.ramp_multiplier, 50);
    assert!(!default_settings.config.even_deny_root);
}

#[test]
fn settings_test_build_settings_missing_action() {
    let args: Vec<&str> = vec![];
    let flags: u32 = 0;
    let result = Settings::build(
        Some(User::new(9999, "test_user", 9999)),
        &args,
        flags,
        Config::default(),
        "test",
    );
    assert!(result.is_ok());
}

#[test]
fn settings_test_build_settings_missing_user() {
    let args = ["preauth"].to_vec();
    let flags: u32 = 0;
    let result = Settings::build(None, &args, flags, Config::default(), "test");
    assert!(result.is_err());
    assert_eq!(result.unwrap_err(), PamResultCode::PAM_USER_UNKNOWN);
}

#[test]
fn test_build_settings_from_toml() {
    let toml_content = r#"
        [Configuration]
        tally_dir = "/tmp/tally_dir"
        free_tries = 10
        base_delay_seconds = 15
        ramp_multiplier = 20.0
        even_deny_root = true
    "#;

    let args = ["preauth"].to_vec();
    let flags: u32 = 0;

    let result = Settings::build(
        Some(User::new(9999, "test_user", 9999)),
        &args,
        flags,
        Config::load_file(Some(toml_content)),
        "test",
    );

    assert!(result.is_ok());
    let settings = result.unwrap();
    assert_eq!(settings.action, Some(Actions::PREAUTH));
    assert_eq!(settings.config.tally_dir, String::from("/tmp/tally_dir"));
    assert!(settings.user.is_some());
    assert_eq!(settings.user.unwrap().name(), "test_user");
    assert_eq!(settings.config.free_tries, 10);
    assert_eq!(settings.config.base_delay_seconds, 15);
    assert_eq!(settings.config.ramp_multiplier, 20);
    assert!(settings.config.even_deny_root);
}

#[test]
fn test_build_settings_from_toml_commented_out() {
    let toml_content = r#"
        [Configuration]
        # tally_dir = "/tmp/tally_dir"
        # free_tries = 10
        # base_delay_seconds = 15
        # ramp_multiplier = 20.0
        # even_deny_root = true
    "#;

    let args = ["preauth"].to_vec();
    let flags: u32 = 0;

    let result = Settings::build(
        Some(User::new(9999, "test_user", 9999)),
        &args,
        flags,
        Config::load_file(Some(toml_content)),
        "test",
    );

    assert!(result.is_ok());
    let settings = result.unwrap();
    assert_eq!(settings.action, Some(Actions::PREAUTH));
    assert_eq!(settings.config.tally_dir, String::from("/var/run/authramp"));
    assert_eq!(settings.config.free_tries, 6);
    assert_eq!(settings.config.base_delay_seconds, 30);
    assert_eq!(settings.config.ramp_multiplier, 50);
    assert!(!settings.config.even_deny_root);
}

#[test]
fn missing_action_is_taken_as_success() {
    let args: Vec<&str> = vec![];
    let settings =
        Settings::build(Some(User::new(1000, "alice", 1000)), &args, 0, Config::default(), "account")
            .unwrap();
    assert_eq!(settings.action, Some(Actions::AUTHSUCC));
    assert_eq!(settings.get_action(), Ok(Actions::AUTHSUCC));
    assert_eq!(settings.pam_hook, "account");
}

#[test]
fn unknown_tokens_are_passed_over() {
    let args = vec!["debug", "PREAUTH", "authfail", "preauth"];
    let settings =
        Settings::build(Some(User::new(1000, "alice", 1000)), &args, 0, Config::default(), "auth")
            .unwrap();
    assert_eq!(settings.action, Some(Actions::AUTHFAIL));

    let args = vec!["debug", "nonsense", ""];
    let settings =
        Settings::build(Some(User::new(1000, "alice", 1000)), &args, 0, Config::default(), "auth")
            .unwrap();
    assert_eq!(settings.action, Some(Actions::AUTHSUCC));
}

#[test]
fn every_token_names_its_action() {
    assert_eq!(Actions::from_token("preauth"), Some(Actions::PREAUTH));
    assert_eq!(Actions::from_token("authfail"), Some(Actions::AUTHFAIL));
    assert_eq!(Actions::from_token("authsucc"), Some(Actions::AUTHSUCC));
    assert_eq!(Actions::from_token("authsuccess"), None);
    assert_eq!(Actions::from_token("Preauth"), None);
    assert_eq!(Actions::from_token(""), None);
}

#[test]
fn only_preauth_leaves_the_file_alone() {
    assert!(!Actions::PREAUTH.writes_tally());
    assert!(Actions::AUTHFAIL.writes_tally());
    assert!(Actions::AUTHSUCC.writes_tally());
}

#[test]
fn settings_without_action_or_user() {
    let mut settings = Settings::default();
    assert_eq!(settings.get_user().err(), Some(PamResultCode::PAM_USER_UNKNOWN));
    settings.action = None;
    assert_eq!(settings.get_action(), Err(PamResultCode::PAM_ABORT));
    settings.user = Some(User::new(0, "root", 0));
    let user = settings.get_user().unwrap();
    assert_eq!(user.uid(), 0);
    assert_eq!(user.name(), "root");
    assert_eq!(user.primary_group_id(), 0);
}

#[test]
fn result_codes_have_their_numbers() {
    assert_eq!(PamResultCode::PAM_SUCCESS.code(), 0);
    assert_eq!(PamResultCode::PAM_SYSTEM_ERR.code(), 4);
    assert_eq!(PamResultCode::PAM_PERM_DENIED.code(), 6);
    assert_eq!(PamResultCode::PAM_AUTH_ERR.code(), 7);
    assert_eq!(PamResultCode::PAM_USER_UNKNOWN.code(), 10);
    assert_eq!(PamResultCode::PAM_CONV_ERR.code(), 19);
    assert_eq!(PamResultCode::PAM_IGNORE.code(), 25);
    assert_eq!(PamResultCode::PAM_ABORT.code(), 26);
}
