//! The intent of one invocation.

use vstd::prelude::*;

verus! {

/// What the caller asks to be done with the tally.
#[allow(clippy::upper_case_acronyms)]
#[derive(Debug, Clone, Copy, PartialEq, Eq, Structural)]
pub enum Actions {
    /// Look at the tally before authentication; nothing is changed.
    PREAUTH,
    /// Authentication succeeded: the tally is cleared.
    AUTHSUCC,
    /// Authentication failed: the tally grows.
    AUTHFAIL,
}

impl Default for Actions {
    fn default() -> (r: Actions)
        ensures
            r == Actions::AUTHFAIL,
    {
        Actions::AUTHFAIL
    }
}

/// The action that an argument token names, if it names one.
pub open spec fn action_of_token(token: Seq<char>) -> Option<Actions> {
    if token == "preauth"@ {
        Some(Actions::PREAUTH)
    } else if token == "authsucc"@ {
        Some(Actions::AUTHSUCC)
    } else if token == "authfail"@ {
        Some(Actions::AUTHFAIL)
    } else {
        None
    }
}

impl Actions {
    /// Reads one argument token: `preauth`, `authsucc` or `authfail`.
    pub fn from_token(token: &str) -> (r: Option<Actions>)
        ensures
            r == action_of_token(token@),
    {
        let owned = token.to_owned();
        if owned == "preauth".to_owned() {
            Some(Actions::PREAUTH)
        } else if owned == "authsucc".to_owned() {
            Some(Actions::AUTHSUCC)
        } else if owned == "authfail".to_owned() {
            Some(Actions::AUTHFAIL)
        } else {
            None
        }
    }

    /// Whether the action rewrites the stored tally.
    pub fn writes_tally(&self) -> (r: bool)
        ensures
            r == (*self != Actions::PREAUTH),
    {
        match self {
            Actions::PREAUTH => false,
            _ => true,
        }
    }
}

} // verus!
