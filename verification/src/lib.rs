//! Account lockout with a ramping delay for an authentication module.
//!
//! The library keeps a tally of consecutive authentication failures per
//! principal, decides from it whether the next attempt is admitted or locked
//! out, and says what a blocked caller is to be told while it waits.
//!
//! The functions here are verified with Verus against the contracts they
//! carry; the few calls into outside crates are believed, and are marked and
//! described where they stand. Nothing here reads a file or the clock: the
//! caller hands in what it read and carries out what comes back. One
//! invocation runs like this.
//!
//! 1. [`config::Config::load_file`] makes the configuration from the content
//!    of its file, and [`settings::Settings::build`] puts it together with
//!    the principal and the action that the arguments name.
//! 2. [`tally::Tally::new_from_tally_file`] opens the tally from what was
//!    found on disk. A file that cannot be read or understood is an error,
//!    never an empty tally.
//! 3. [`tally::Tally::delay_steps`] names the argument of the delay formula,
//!    if the action calls for a delay at all. The formula itself uses a
//!    logarithm and is the caller's to work out.
//! 4. [`hooks::Pamauthramp::sm_authenticate`] applies the action, hands back
//!    the document to write and the first step of holding the caller back.
//! 5. While the step is [`bounce::Bounce::Wait`], the caller sleeps for a
//!    second, reads the clock and asks [`bounce::bounce_auth`] again.
//!
//! What is left to outside crates is named where it is called: `chrono` reads
//! and writes timestamps ([`instant`]), `toml` parses documents
//! ([`document`]), and `colored` paints the labels of the administrative tool
//! ([`cli`]). Of what they return the contracts claim no more than is written
//! above each call.

pub mod actions;
pub mod bounce;
pub mod cli;
pub mod config;
pub mod document;
pub mod hooks;
pub mod instant;
pub mod number;
pub mod reset;
pub mod result_code;
pub mod settings;
pub mod store;
pub mod tally;
pub mod text;
