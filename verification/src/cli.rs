//! What the administrative tool reports.
//!
//! The labels are coloured by the `colored` crate, which decides at run time,
//! from the terminal and the variables it honours, whether to colour at all.
//! So of a coloured text nothing is known here but that it came back.

use vstd::prelude::*;

verus! {

/// A failure, with its message.
#[derive(Debug, Clone, PartialEq, Eq)]
pub struct ArCliError {
    pub message: String,
}

/// A success, with its message.
#[derive(Debug, Clone, PartialEq, Eq)]
pub struct ArCliSuccess {
    pub message: String,
}

/// A remark that is neither, with its message.
#[derive(Debug, Clone, PartialEq, Eq)]
pub struct ArCliInfo {
    pub message: String,
}

/// The result of a command of the tool.
#[derive(Debug, Clone, PartialEq, Eq)]
pub enum ArCliResult {
    /// The command succeeded, with or without something to say.
    Success(Option<ArCliSuccess>),
    /// The command had nothing to do.
    Info(ArCliInfo),
    /// The command failed.
    Error(ArCliError),
}

/// Calls `colored::Colorize::color` on `text` with the colour that `colour`
/// names, and writes the result with its `Display`. Whether escape codes are
/// added is decided at run time, so nothing is claimed of the result.
#[verifier::external_body]
pub(crate) fn coloured(text: &str, colour: &str) -> String {
    colored::Colorize::color(text, colour).to_string()
}

/// Calls `colored::Colorize::color` and then `bold` on `text`, and writes the
/// result with its `Display`. Nothing is claimed of the result, as for
/// `coloured`.
#[verifier::external_body]
pub(crate) fn coloured_bold(text: &str, colour: &str) -> String {
    colored::Colorize::bold(colored::Colorize::color(text, colour)).to_string()
}

/// A label, a space and a message.
pub open spec fn labelled(label: Seq<char>, message: Seq<char>) -> Seq<char> {
    label + " "@ + message
}

/// Puts a label in front of a message.
pub fn with_label(label: &str, message: &str) -> (r: String)
    ensures
        r@ == labelled(label@, message@),
{
    let mut out = label.to_owned();
    out.append(" ");
    out.append(message);
    assert(out@ =~= labelled(label@, message@));
    out
}

impl ArCliResult {
    /// The message of the result, where it has one.
    pub open spec fn spec_message(self) -> Option<Seq<char>> {
        match self {
            ArCliResult::Success(Some(success)) => Some(success.message@),
            ArCliResult::Success(None) => None,
            ArCliResult::Info(info) => Some(info.message@),
            ArCliResult::Error(error) => Some(error.message@),
        }
    }

    /// The message of the result, where it has one.
    pub fn message(&self) -> (r: Option<&str>)
        ensures
            match r {
                Some(m) => self.spec_message() == Some(m@),
                None => self.spec_message() is None,
            },
    {
        match self {
            ArCliResult::Success(Some(success)) => Some(success.message.as_str()),
            ArCliResult::Success(None) => None,
            ArCliResult::Info(info) => Some(info.message.as_str()),
            ArCliResult::Error(error) => Some(error.message.as_str()),
        }
    }

    /// The line to print: nothing for a success without a message, and
    /// otherwise the message behind a coloured label, `success:`, `info:` or
    /// `error:`. The label is whatever the colouring gave back.
    pub fn render(&self) -> (r: String)
        ensures
            self.spec_message() is None ==> r@ == Seq::<char>::empty(),
            self.spec_message() is Some ==> exists|label: Seq<char>|
                r@ == #[trigger] labelled(label, self.spec_message().unwrap()),
    {
        match self {
            ArCliResult::Success(Some(success)) => {
                let label = coloured_bold("success:", "green");
                let line = with_label(label.as_str(), success.message.as_str());
                assert(line@ == labelled(label@, self.spec_message().unwrap()));
                line
            },
            ArCliResult::Success(None) => {
                let line = String::new();
                assert(line@ == Seq::<char>::empty());
                line
            },
            ArCliResult::Info(info) => {
                let label = coloured_bold("info:", "yellow");
                let line = with_label(label.as_str(), info.message.as_str());
                assert(line@ == labelled(label@, self.spec_message().unwrap()));
                line
            },
            ArCliResult::Error(error) => {
                let label = coloured_bold("error:", "red");
                let line = with_label(label.as_str(), error.message.as_str());
                assert(line@ == labelled(label@, self.spec_message().unwrap()));
                line
            },
        }
    }
}

} // verus!
