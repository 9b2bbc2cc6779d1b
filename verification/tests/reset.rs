use authramp::cli::{with_label, ArCliError, ArCliInfo, ArCliResult, ArCliSuccess};
use authramp::reset::{delete_tally, user, Removal};

#[test]
fn removed_tally_is_a_success() {
    assert_eq!(
        delete_tally(Removal::Deleted, "alice"),
        ArCliResult::Success(Some(ArCliSuccess {
            message: String::from("tally reset for user: 'alice'")
        }))
    );
}

#[test]
fn no_tally_is_a_remark() {
    assert_eq!(
        delete_tally(Removal::NotFound, "alice"),
        ArCliResult::Info(ArCliInfo { message: String::from("No tally found for user: 'alice'") })
    );
}

#[test]
fn failed_removal_is_an_error() {
    assert_eq!(
        delete_tally(Removal::Failed(String::from("Permission denied (os error 13)")), "alice"),
        ArCliResult::Error(ArCliError { message: String::from("Permission denied (os error 13)") })
    );
}

#[test]
fn reset_report_without_colours() {
    colored::control::set_override(false);
    assert_eq!(
        user("bob", Removal::Deleted),
        ArCliResult::Success(Some(ArCliSuccess {
            message: String::from("tally reset for user: 'bob'")
        }))
    );
    assert_eq!(
        user("bob", Removal::NotFound),
        ArCliResult::Info(ArCliInfo { message: String::from("No tally found for user: 'bob'") })
    );
    assert_eq!(
        user("bob", Removal::Failed(String::from("busy"))),
        ArCliResult::Error(ArCliError { message: String::from("busy") })
    );
    assert_eq!(user("bob", Removal::Deleted).render(), "success: tally reset for user: 'bob'");
    assert_eq!(user("bob", Removal::NotFound).render(), "info: No tally found for user: 'bob'");
    assert_eq!(user("bob", Removal::Failed(String::from("busy"))).render(), "error: busy");
    assert_eq!(ArCliResult::Success(None).render(), "");
    colored::control::unset_override();
}

#[test]
fn reset_report_keeps_its_frame_with_colours() {
    let report = user("bob", Removal::Deleted);
    let message = report.message().unwrap();
    assert!(message.starts_with("tally reset for user: '"));
    assert!(message.ends_with("'"));
    assert!(message.contains("bob"));
    let line = report.render();
    assert!(line.ends_with(&format!(" {}", message)));
    assert!(line.contains("success:"));

    let report = user("bob", Removal::NotFound);
    let message = report.message().unwrap();
    assert!(message.starts_with("No tally found for user: '"));
    assert!(message.ends_with("'"));
    assert!(report.render().contains("info:"));

    let report = user("bob", Removal::Failed(String::from("busy")));
    assert_eq!(report.message(), Some("busy"));
    assert!(report.render().ends_with(" busy"));
    assert!(report.render().contains("error:"));
    assert_eq!(ArCliResult::Success(None).message(), None);
}

#[test]
fn label_and_message() {
    assert_eq!(with_label("info:", "nothing to do"), "info: nothing to do");
    assert_eq!(with_label("", ""), " ");
}
