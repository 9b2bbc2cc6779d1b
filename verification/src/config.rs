//! The options that tune the lockout.

use vstd::prelude::*;
use crate::document::{
    entry_at, toml_entry, toml_from_str, toml_parse, view_of, Entry, EntryView, Tables,
};
use crate::number::{truncate_to_i32, truncated_i32};

verus! {

/// The table of the configuration file that holds the options.
pub const CONFIG_TABLE: &'static str = "Configuration";

/// Where tallies are kept when the configuration names no directory.
pub const DEFAULT_TALLY_DIR: &'static str = "/var/run/authramp";

/// Failures allowed before any delay applies, unless configured.
pub const DEFAULT_FREE_TRIES: i32 = 6;

/// The delay that every lockout starts from, in seconds, unless configured.
pub const DEFAULT_BASE_DELAY_SECONDS: i32 = 30;

/// The factor by which the delay ramps up, unless configured.
pub const DEFAULT_RAMP_MULTIPLIER: i32 = 50;

/// The options of the lockout.
#[derive(Debug, Clone)]
pub struct Config {
    /// Directory where the tally of each principal is stored.
    pub tally_dir: String,
    /// Number of failures allowed before delays apply. Never negative.
    pub free_tries: i32,
    /// Delay that every lockout starts from, in seconds. Never negative.
    pub base_delay_seconds: i32,
    /// Factor of the ramp in the delay formula.
    pub ramp_multiplier: i32,
    /// Whether the privileged root identity is locked out like any other.
    pub even_deny_root: bool,
    /// Whether a locked-out caller is held back and shown a countdown.
    pub countdown: bool,
}

/// A configuration with its directory as a sequence.
pub struct ConfigView {
    pub tally_dir: Seq<char>,
    pub free_tries: i32,
    pub base_delay_seconds: i32,
    pub ramp_multiplier: i32,
    pub even_deny_root: bool,
    pub countdown: bool,
}

impl View for Config {
    type V = ConfigView;

    open spec fn view(&self) -> ConfigView {
        ConfigView {
            tally_dir: self.tally_dir@,
            free_tries: self.free_tries,
            base_delay_seconds: self.base_delay_seconds,
            ramp_multiplier: self.ramp_multiplier,
            even_deny_root: self.even_deny_root,
            countdown: self.countdown,
        }
    }
}

/// The documented default of every option.
pub open spec fn default_config() -> ConfigView {
    ConfigView {
        tally_dir: DEFAULT_TALLY_DIR@,
        free_tries: DEFAULT_FREE_TRIES,
        base_delay_seconds: DEFAULT_BASE_DELAY_SECONDS,
        ramp_multiplier: DEFAULT_RAMP_MULTIPLIER,
        even_deny_root: false,
        countdown: true,
    }
}

/// A string option: the entry where it is a string, else the default.
pub open spec fn text_or(entry: Option<EntryView>, default: Seq<char>) -> Seq<char> {
    match entry {
        Some(EntryView::Text(s)) => s,
        _ => default,
    }
}

/// An option that counts: the entry where it is an integer from 0 to the
/// largest `i32`, else the default.
pub open spec fn count_or(entry: Option<EntryView>, default: i32) -> i32 {
    match entry {
        Some(EntryView::Integer(i)) => if 0 <= i <= i32::MAX {
            i as i32
        } else {
            default
        },
        _ => default,
    }
}

/// A factor: the entry where it is a float, cut down to an `i32`, or an
/// integer that an `i32` holds, else the default.
pub open spec fn factor_or(entry: Option<EntryView>, default: i32) -> i32 {
    match entry {
        Some(EntryView::Float(bits)) => truncated_i32(bits) as i32,
        Some(EntryView::Integer(i)) => if i32::MIN <= i <= i32::MAX {
            i as i32
        } else {
            default
        },
        _ => default,
    }
}

/// A switch: the entry where it is a boolean, else the default.
pub open spec fn flag_or(entry: Option<EntryView>, default: bool) -> bool {
    match entry {
        Some(EntryView::Boolean(b)) => b,
        _ => default,
    }
}

/// The configuration that the entries of the table give. Each option falls
/// back to its default by itself, where it is not set or is not of its kind.
pub open spec fn config_of_entries(
    tally_dir: Option<EntryView>,
    free_tries: Option<EntryView>,
    base_delay_seconds: Option<EntryView>,
    ramp_multiplier: Option<EntryView>,
    even_deny_root: Option<EntryView>,
    countdown: Option<EntryView>,
) -> ConfigView {
    ConfigView {
        tally_dir: text_or(tally_dir, DEFAULT_TALLY_DIR@),
        free_tries: count_or(free_tries, DEFAULT_FREE_TRIES),
        base_delay_seconds: count_or(base_delay_seconds, DEFAULT_BASE_DELAY_SECONDS),
        ramp_multiplier: factor_or(ramp_multiplier, DEFAULT_RAMP_MULTIPLIER),
        even_deny_root: flag_or(even_deny_root, false),
        countdown: flag_or(countdown, true),
    }
}

/// The configuration that the tables of a document give.
pub open spec fn config_of_tables(tables: Tables) -> ConfigView {
    config_of_entries(
        entry_at(tables, CONFIG_TABLE@, "tally_dir"@),
        entry_at(tables, CONFIG_TABLE@, "free_tries"@),
        entry_at(tables, CONFIG_TABLE@, "base_delay_seconds"@),
        entry_at(tables, CONFIG_TABLE@, "ramp_multiplier"@),
        entry_at(tables, CONFIG_TABLE@, "even_deny_root"@),
        entry_at(tables, CONFIG_TABLE@, "countdown"@),
    )
}

/// The configuration that the content of the configuration file gives, and
/// all defaults where there is no content or it is no TOML document.
pub open spec fn config_of_text(content: Option<Seq<char>>) -> ConfigView {
    match content {
        None => default_config(),
        Some(text) => match toml_parse(text) {
            None => default_config(),
            Some(tables) => config_of_tables(tables),
        },
    }
}

/// Reads a string option.
fn read_text(entry: Option<Entry>, default: &str) -> (r: String)
    ensures
        r@ == text_or(view_of(entry), default@),
{
    match entry {
        Some(Entry::Text(s)) => s,
        _ => default.to_owned(),
    }
}

/// Reads an option that counts.
fn read_count(entry: Option<Entry>, default: i32) -> (r: i32)
    ensures
        r == count_or(view_of(entry), default),
{
    match entry {
        Some(Entry::Integer(i)) => {
            if 0 <= i && i <= i32::MAX as i64 {
                i as i32
            } else {
                default
            }
        },
        _ => default,
    }
}

/// Reads a factor.
fn read_factor(entry: Option<Entry>, default: i32) -> (r: i32)
    ensures
        r == factor_or(view_of(entry), default),
{
    match entry {
        Some(Entry::Float(bits)) => truncate_to_i32(bits),
        Some(Entry::Integer(i)) => {
            if i32::MIN as i64 <= i && i <= i32::MAX as i64 {
                i as i32
            } else {
                default
            }
        },
        _ => default,
    }
}

/// Reads a switch.
fn read_flag(entry: Option<Entry>, default: bool) -> (r: bool)
    ensures
        r == flag_or(view_of(entry), default),
{
    match entry {
        Some(Entry::Boolean(b)) => b,
        _ => default,
    }
}

impl Config {
    /// Makes the configuration that the entries of the table give; see
    /// `config_of_entries`.
    pub fn from_entries(
        tally_dir: Option<Entry>,
        free_tries: Option<Entry>,
        base_delay_seconds: Option<Entry>,
        ramp_multiplier: Option<Entry>,
        even_deny_root: Option<Entry>,
        countdown: Option<Entry>,
    ) -> (r: Config)
        ensures
            r@ == config_of_entries(
                view_of(tally_dir),
                view_of(free_tries),
                view_of(base_delay_seconds),
                view_of(ramp_multiplier),
                view_of(even_deny_root),
                view_of(countdown),
            ),
            r.wf(),
    {
        Config {
            tally_dir: read_text(tally_dir, DEFAULT_TALLY_DIR),
            free_tries: read_count(free_tries, DEFAULT_FREE_TRIES),
            base_delay_seconds: read_count(base_delay_seconds, DEFAULT_BASE_DELAY_SECONDS),
            ramp_multiplier: read_factor(ramp_multiplier, DEFAULT_RAMP_MULTIPLIER),
            even_deny_root: read_flag(even_deny_root, false),
            countdown: read_flag(countdown, true),
        }
    }

    /// Makes the configuration from the content of the configuration file,
    /// `None` standing for a file that is missing or could not be read; see
    /// `config_of_text`. This never fails: what cannot be used falls back to
    /// the defaults.
    pub fn load_file(content: Option<&str>) -> (r: Config)
        ensures
            r@ == config_of_text(
                match content {
                    Some(text) => Some(text@),
                    None => None,
                },
            ),
            r.wf(),
    {
        let text = match content {
            Some(text) => text,
            None => {
                return Config::default();
            },
        };
        let doc = match toml_from_str(text) {
            Ok(doc) => doc,
            Err(_) => {
                return Config::default();
            },
        };
        Config::from_entries(
            toml_entry(&doc, CONFIG_TABLE, "tally_dir"),
            toml_entry(&doc, CONFIG_TABLE, "free_tries"),
            toml_entry(&doc, CONFIG_TABLE, "base_delay_seconds"),
            toml_entry(&doc, CONFIG_TABLE, "ramp_multiplier"),
            toml_entry(&doc, CONFIG_TABLE, "even_deny_root"),
            toml_entry(&doc, CONFIG_TABLE, "countdown"),
        )
    }

    /// The bounds that every configuration keeps.
    pub open spec fn wf(self) -> bool {
        self.free_tries >= 0 && self.base_delay_seconds >= 0
    }

    /// Whether `self` holds the documented default of every option.
    pub open spec fn is_default(self) -> bool {
        self@ == default_config()
    }
}

impl Default for Config {
    /// The documented defaults.
    fn default() -> (r: Config)
        ensures
            r.is_default(),
            r.wf(),
    {
        Config {
            tally_dir: DEFAULT_TALLY_DIR.to_owned(),
            free_tries: DEFAULT_FREE_TRIES,
            base_delay_seconds: DEFAULT_BASE_DELAY_SECONDS,
            ramp_multiplier: DEFAULT_RAMP_MULTIPLIER,
            even_deny_root: false,
            countdown: true,
        }
    }
}

} // verus!
