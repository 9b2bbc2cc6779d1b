//! Resetting the tally of a principal: the administrator's way to lift a
//! lockout. Removing the file is the caller's part; what came of it is
//! reported here.

use vstd::prelude::*;
use crate::cli::{coloured, ArCliError, ArCliInfo, ArCliResult, ArCliSuccess};

verus! {

/// What came of removing the tally file.
#[derive(Debug, Clone, PartialEq, Eq)]
pub enum Removal {
    /// The file was removed.
    Deleted,
    /// There was no file.
    NotFound,
    /// Removing failed, for the reason given.
    Failed(String),
}

/// The message for a tally that was reset.
pub open spec fn reset_message(shown_user: Seq<char>) -> Seq<char> {
    "tally reset for user: '"@ + shown_user + "'"@
}

/// The message for a principal without a tally.
pub open spec fn no_tally_message(shown_user: Seq<char>) -> Seq<char> {
    "No tally found for user: '"@ + shown_user + "'"@
}

/// Reports what came of removing the tally of a principal, whose name is
/// shown as `shown_user`: a success for a removed file, a remark where there
/// was none, and otherwise the error with its reason.
pub fn delete_tally(removal: Removal, shown_user: &str) -> (r: ArCliResult)
    ensures
        match removal {
            Removal::Deleted => r matches ArCliResult::Success(Some(success)) && success.message@
                == reset_message(shown_user@),
            Removal::NotFound => r matches ArCliResult::Info(info) && info.message@
                == no_tally_message(shown_user@),
            Removal::Failed(reason) => r matches ArCliResult::Error(error) && error.message@
                == reason@,
        },
{
    match removal {
        Removal::Deleted => {
            let mut message = "tally reset for user: '".to_owned();
            message.append(shown_user);
            message.append("'");
            assert(message@ =~= reset_message(shown_user@));
            ArCliResult::Success(Some(ArCliSuccess { message }))
        },
        Removal::NotFound => {
            let mut message = "No tally found for user: '".to_owned();
            message.append(shown_user);
            message.append("'");
            assert(message@ =~= no_tally_message(shown_user@));
            ArCliResult::Info(ArCliInfo { message })
        },
        Removal::Failed(reason) => ArCliResult::Error(ArCliError { message: reason }),
    }
}

/// Reports the reset of the tally of the principal `name`, in yellow where
/// colours are in use. The name is shown as the colouring gave it back; the
/// rest of the report is that of `delete_tally`.
pub fn user(name: &str, removal: Removal) -> (r: ArCliResult)
    ensures
        match removal {
            Removal::Deleted => r matches ArCliResult::Success(Some(success)) && exists|
                shown: Seq<char>,
            |
                success.message@ == #[trigger] reset_message(shown),
            Removal::NotFound => r matches ArCliResult::Info(info) && exists|shown: Seq<char>|
                info.message@ == #[trigger] no_tally_message(shown),
            Removal::Failed(reason) => r matches ArCliResult::Error(error) && error.message@
                == reason@,
        },
{
    let shown = coloured(name, "yellow");
    delete_tally(removal, shown.as_str())
}

} // verus!
