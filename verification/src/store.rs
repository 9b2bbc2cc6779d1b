//! The tally as it is kept on disk: a TOML document with one table, `Fails`.
//!
//! ```text
//! [Fails]
//! count = 3
//! instant = "2023-01-01 00:00:00 UTC"
//! unlock_instant = "2023-01-01 00:00:30 UTC"
//! ```
//!
//! Reading and writing the file is the caller's part. The functions here turn
//! what was read into a tally, and a tally into what is to be written.

use vstd::prelude::*;
use crate::actions::Actions;
use crate::document::{
    entry_at, toml_entry, toml_from_str, toml_has_table, toml_parse, view_of, Entry, EntryView,
    Tables,
};
use crate::instant::Instant;
use crate::result_code::PamResultCode;
use crate::settings::Settings;
use crate::tally::{Tally, MAX_LOCKOUT_SECONDS};
use crate::text::{decimal_text, push_signed_decimal};

verus! {

/// Why a tally could not be read or written. Every one of these denies the
/// caller: a tally that is not known never admits.
#[derive(Debug, Clone, Copy, PartialEq, Eq, Structural)]
pub enum StoreError {
    /// The file is there and could not be read.
    Unreadable,
    /// The content is no TOML document.
    Syntax,
    /// The document holds no table `Fails`.
    MissingTable,
    /// `count` is there and is no integer from 0 to the largest `i32`.
    BadCount,
    /// `instant` is there and is no string that holds a timestamp.
    BadInstant,
    /// `unlock_instant` is there and is no string that holds a timestamp.
    BadUnlockInstant,
    /// The tally cannot be written so that it reads back as it is: an
    /// instant is out of the range of timestamps, or the count is negative.
    Unwritable,
}

impl StoreError {
    /// The code under which every store error reaches the host.
    pub fn result_code(&self) -> (r: PamResultCode)
        ensures
            r == PamResultCode::PAM_SYSTEM_ERR,
    {
        PamResultCode::PAM_SYSTEM_ERR
    }
}

/// What the caller found where the tally of a principal is kept.
#[derive(Debug, Clone, PartialEq, Eq)]
pub enum TallyFile {
    /// There is no file.
    Absent,
    /// There is a file, and reading it failed.
    Unreadable,
    /// The content of the file.
    Content(String),
}

/// A tally that has been opened.
#[derive(Debug, Clone, PartialEq, Eq)]
pub struct Opened {
    /// The tally.
    pub tally: Tally,
    /// The content of the file to create, where there was none.
    pub create: Option<String>,
}

/// What an update did that is worth a line in the log.
#[derive(Debug, Clone, Copy, PartialEq, Eq)]
pub enum Notice {
    /// Nothing to speak of.
    Nothing,
    /// A success cleared this many failures, and the account is unlocked.
    Cleared(i32),
    /// A failure brought the count to this number, past the free tries, and
    /// the account is locked until the instant given.
    Locked(i32, Instant),
}

/// What an update of the tally leaves for the caller to do.
#[derive(Debug, Clone, PartialEq, Eq)]
pub struct Updated {
    /// The new content of the file, where the action rewrites it.
    pub write: Option<String>,
    /// What to log.
    pub notice: Notice,
}

/// What is worth a line in the log when `action` has turned the tally
/// `before` into `after`: a success that cleared failures, and a failure
/// that left the count past the free tries.
pub open spec fn notice_of(action: Actions, before: Tally, after: Tally, free_tries: int)
    -> Notice {
    match action {
        Actions::PREAUTH => Notice::Nothing,
        Actions::AUTHSUCC => if before.failures_count > 0 {
            Notice::Cleared(before.failures_count)
        } else {
            Notice::Nothing
        },
        Actions::AUTHFAIL => match after.unlock_instant {
            Some(unlock) => if after.failures_count > free_tries {
                Notice::Locked(after.failures_count, unlock)
            } else {
                Notice::Nothing
            },
            None => Notice::Nothing,
        },
    }
}

/// The count that an entry gives: zero without an entry.
pub open spec fn count_of(entry: Option<EntryView>) -> Result<i32, StoreError> {
    match entry {
        None => Ok(0),
        Some(EntryView::Integer(i)) => if 0 <= i <= i32::MAX {
            Ok(i as i32)
        } else {
            Err(StoreError::BadCount)
        },
        Some(_) => Err(StoreError::BadCount),
    }
}

/// The instant that an entry gives, `None` without an entry, and `Err` for an
/// entry that holds no timestamp.
pub open spec fn instant_of(entry: Option<EntryView>) -> Result<Option<Instant>, ()> {
    match entry {
        None => Ok(None),
        Some(EntryView::Text(s)) => match Instant::spec_parse(s) {
            Some(t) => Ok(Some(t)),
            None => Err(()),
        },
        Some(_) => Err(()),
    }
}

/// The instant that stands for a missing `instant`: the epoch.
pub open spec fn epoch() -> Instant {
    Instant::spec_new(0, 0).unwrap()
}

/// The tally that the three entries of the table give. A missing entry
/// stands for zero failures, the epoch, and no unlock instant. An entry that
/// is there and malformed is an error, the first of them in this order.
pub open spec fn tally_of_entries(
    count: Option<EntryView>,
    instant: Option<EntryView>,
    unlock_instant: Option<EntryView>,
) -> Result<Tally, StoreError> {
    match count_of(count) {
        Err(e) => Err(e),
        Ok(failures_count) => match instant_of(instant) {
            Err(_) => Err(StoreError::BadInstant),
            Ok(read_instant) => match instant_of(unlock_instant) {
                Err(_) => Err(StoreError::BadUnlockInstant),
                Ok(read_unlock) => Ok(
                    Tally {
                        failures_count,
                        failure_instant: match read_instant {
                            Some(t) => t,
                            None => epoch(),
                        },
                        unlock_instant: read_unlock,
                    },
                ),
            },
        },
    }
}

/// The tally that the tables of a document give.
pub open spec fn tally_of_tables(tables: Tables) -> Result<Tally, StoreError> {
    if !tables.dom().contains("Fails"@) {
        Err(StoreError::MissingTable)
    } else {
        tally_of_entries(
            entry_at(tables, "Fails"@, "count"@),
            entry_at(tables, "Fails"@, "instant"@),
            entry_at(tables, "Fails"@, "unlock_instant"@),
        )
    }
}

/// The tally that a file content gives.
pub open spec fn tally_of_text(text: Seq<char>) -> Result<Tally, StoreError> {
    match toml_parse(text) {
        None => Err(StoreError::Syntax),
        Some(tables) => tally_of_tables(tables),
    }
}

/// The document of a tally whose instants are written as given.
pub open spec fn record_text(count: int, instant: Seq<char>, unlock_instant: Option<Seq<char>>)
    -> Seq<char> {
    "[Fails]\ncount = "@ + decimal_text(count) + "\ninstant = \""@ + instant + "\""@ + (
    match unlock_instant {
        Some(text) => "\nunlock_instant = \""@ + text + "\""@,
        None => Seq::<char>::empty(),
    })
}

/// The document of a tally as it is put together, or `None` where one of its
/// instants cannot be written.
pub open spec fn composed_text(tally: Tally) -> Option<Seq<char>> {
    match tally.failure_instant.spec_text() {
        None => None,
        Some(instant) => match tally.unlock_instant {
            None => Some(record_text(tally.failures_count as int, instant, None)),
            Some(unlock) => match unlock.spec_text() {
                None => None,
                Some(text) => Some(record_text(tally.failures_count as int, instant, Some(text))),
            },
        },
    }
}

/// The document that is written for a tally: the one put together, as long
/// as it reads back as that tally. Nothing is written that would be read as
/// another tally or not at all.
pub open spec fn tally_text(tally: Tally) -> Option<Seq<char>> {
    match composed_text(tally) {
        Some(text) => if tally_of_text(text) == Ok::<Tally, StoreError>(tally) {
            Some(text)
        } else {
            None
        },
        None => None,
    }
}

/// What opening gives for what was found, at the instant `now`: the tally
/// read, or for no file a new tally and the document to create.
pub open spec fn opened(file: TallyFile, now: Instant) -> Result<(Tally, Option<Seq<char>>),
    StoreError,
> {
    match file {
        TallyFile::Unreadable => Err(StoreError::Unreadable),
        TallyFile::Content(text) => match tally_of_text(text@) {
            Ok(tally) => Ok((tally, None)),
            Err(e) => Err(e),
        },
        TallyFile::Absent => match tally_text(Tally::spec_new(now)) {
            Some(text) => Ok((Tally::spec_new(now), Some(text))),
            None => Err(StoreError::Unwritable),
        },
    }
}

/// A text that may be missing, as a sequence.
pub open spec fn text_of(text: Option<String>) -> Option<Seq<char>> {
    match text {
        Some(s) => Some(s@),
        None => None,
    }
}

/// What an update gives for the action of `settings` at the instant `now`,
/// where the delay formula gives `raw` seconds: the tally that it leaves and
/// the document to write.
///
/// Nothing is done without a principal or without an action. `PREAUTH`
/// leaves the tally and writes nothing. The other actions leave the tally
/// that `spec_apply` names and write its whole document, and fail where that
/// cannot be written.
pub open spec fn updated(tally: Tally, settings: Settings, now: Instant, raw: int) -> Result<
    (Tally, Option<Seq<char>>),
    PamResultCode,
> {
    if settings.user is None {
        Err(PamResultCode::PAM_USER_UNKNOWN)
    } else if settings.action is None {
        Err(PamResultCode::PAM_ABORT)
    } else if settings.action == Some(Actions::PREAUTH) {
        Ok((tally, None))
    } else {
        let next = tally.spec_apply(
            settings.action.unwrap(),
            now,
            raw,
            settings.config.free_tries as int,
        );
        match tally_text(next) {
            Some(text) => Ok((next, Some(text))),
            None => Err(PamResultCode::PAM_SYSTEM_ERR),
        }
    }
}

/// Puts the document of a tally together from its count and its instants as
/// they are written; see `record_text`.
pub fn compose_record(count: i32, instant: &str, unlock_instant: Option<&str>) -> (r: String)
    ensures
        r@ == record_text(
            count as int,
            instant@,
            match unlock_instant {
                Some(text) => Some(text@),
                None => None,
            },
        ),
{
    let mut out = "[Fails]\ncount = ".to_owned();
    push_signed_decimal(&mut out, count as i64);
    out.append("\ninstant = \"");
    out.append(instant);
    out.append("\"");
    assert(out@ =~= record_text(count as int, instant@, None));
    match unlock_instant {
        None => {},
        Some(text) => {
            out.append("\nunlock_instant = \"");
            out.append(text);
            out.append("\"");
            assert(out@ =~= record_text(count as int, instant@, Some(text@)));
        },
    }
    out
}

/// Says what is worth a line in the log; see `notice_of`.
fn notice(action: Actions, before: &Tally, after: &Tally, free_tries: i32) -> (r: Notice)
    ensures
        r == notice_of(action, *before, *after, free_tries as int),
{
    match action {
        Actions::PREAUTH => Notice::Nothing,
        Actions::AUTHSUCC => {
            if before.failures_count > 0 {
                Notice::Cleared(before.failures_count)
            } else {
                Notice::Nothing
            }
        },
        Actions::AUTHFAIL => match after.unlock_instant {
            Some(unlock) => {
                if after.failures_count > free_tries {
                    Notice::Locked(after.failures_count, unlock)
                } else {
                    Notice::Nothing
                }
            },
            None => Notice::Nothing,
        },
    }
}

/// Reads the count from its entry.
fn read_count(entry: Option<Entry>) -> (r: Result<i32, StoreError>)
    ensures
        r == count_of(view_of(entry)),
{
    match entry {
        None => Ok(0),
        Some(Entry::Integer(i)) => {
            if 0 <= i && i <= i32::MAX as i64 {
                Ok(i as i32)
            } else {
                Err(StoreError::BadCount)
            }
        },
        Some(_) => Err(StoreError::BadCount),
    }
}

/// Reads an instant from its entry.
fn read_instant(entry: Option<Entry>) -> (r: Result<Option<Instant>, ()>)
    ensures
        r == instant_of(view_of(entry)),
{
    match entry {
        None => Ok(None),
        Some(Entry::Text(s)) => match Instant::parse(s.as_str()) {
            Some(t) => Ok(Some(t)),
            None => Err(()),
        },
        Some(_) => Err(()),
    }
}

impl Tally {
    /// Makes the tally that the entries of the table `Fails` give; see
    /// `tally_of_entries`.
    pub fn from_entries(
        count: Option<Entry>,
        instant: Option<Entry>,
        unlock_instant: Option<Entry>,
    ) -> (r: Result<Tally, StoreError>)
        ensures
            r == tally_of_entries(view_of(count), view_of(instant), view_of(unlock_instant)),
    {
        let failures_count = match read_count(count) {
            Ok(n) => n,
            Err(e) => {
                return Err(e);
            },
        };
        let failure_instant = match read_instant(instant) {
            Ok(Some(t)) => t,
            Ok(None) => Instant::from_secs(0),
            Err(_) => {
                return Err(StoreError::BadInstant);
            },
        };
        let unlock_instant = match read_instant(unlock_instant) {
            Ok(t) => t,
            Err(_) => {
                return Err(StoreError::BadUnlockInstant);
            },
        };
        Ok(Tally { failures_count, failure_instant, unlock_instant })
    }

    /// Reads a tally from the content of its file; see `tally_of_text`.
    pub fn parse(text: &str) -> (r: Result<Tally, StoreError>)
        ensures
            r == tally_of_text(text@),
    {
        let doc = match toml_from_str(text) {
            Ok(doc) => doc,
            Err(_) => {
                return Err(StoreError::Syntax);
            },
        };
        if !toml_has_table(&doc, "Fails") {
            return Err(StoreError::MissingTable);
        }
        let count = toml_entry(&doc, "Fails", "count");
        let instant = toml_entry(&doc, "Fails", "instant");
        let unlock_instant = toml_entry(&doc, "Fails", "unlock_instant");
        Tally::from_entries(count, instant, unlock_instant)
    }

    /// Writes the tally as the content of its file, and reads what it wrote
    /// to make sure of it: the document that comes back is one that `parse`
    /// reads as this very tally. `Unwritable` comes back where an instant
    /// cannot be written or the document would not read back.
    pub fn to_toml(&self) -> (r: Result<String, StoreError>)
        ensures
            match r {
                Ok(text) => tally_text(*self) == Some(text@),
                Err(e) => tally_text(*self) is None && e == StoreError::Unwritable,
            },
            r matches Ok(text) ==> tally_of_text(text@) == Ok::<Tally, StoreError>(*self),
    {
        let instant = match self.failure_instant.to_text() {
            Some(text) => text,
            None => {
                return Err(StoreError::Unwritable);
            },
        };
        let out = match self.unlock_instant {
            None => compose_record(self.failures_count, instant.as_str(), None),
            Some(unlock) => {
                let text = match unlock.to_text() {
                    Some(text) => text,
                    None => {
                        return Err(StoreError::Unwritable);
                    },
                };
                compose_record(self.failures_count, instant.as_str(), Some(text.as_str()))
            },
        };
        assert(composed_text(*self) == Some(out@));
        match Tally::parse(out.as_str()) {
            Ok(read) => {
                if read.same(self) {
                    Ok(out)
                } else {
                    Err(StoreError::Unwritable)
                }
            },
            Err(_) => Err(StoreError::Unwritable),
        }
    }

    /// Whether two tallies are the same in every field.
    pub fn same(&self, other: &Tally) -> (r: bool)
        ensures
            r == (*self == *other),
    {
        let unlocks = match (self.unlock_instant, other.unlock_instant) {
            (Some(a), Some(b)) => a == b,
            (None, None) => true,
            _ => false,
        };
        self.failures_count == other.failures_count && self.failure_instant
            == other.failure_instant && unlocks
    }

    /// Applies the action of `settings` to the tally and says what to write;
    /// see `updated`.
    ///
    /// Without a principal, `PAM_USER_UNKNOWN` comes back, and without an
    /// action `PAM_ABORT`. `PREAUTH` changes nothing and writes nothing. The
    /// other actions change the tally as `spec_apply` says, and `write` holds
    /// the whole new document: after `AUTHSUCC` one without failures and
    /// without an unlock instant, after `AUTHFAIL` one with a lockout of at
    /// most 24 hours. Where that document cannot be written, `PAM_SYSTEM_ERR`
    /// comes back. On every error the tally is left as it was.
    pub fn update(&mut self, settings: &Settings, now: Instant, raw_delay: i64) -> (r: Result<
        Updated,
        PamResultCode,
    >)
        requires
            settings.user is Some && settings.action is Some ==> old(self).can_apply(
                settings.action.unwrap(),
                now,
                raw_delay as int,
                settings.config.free_tries as int,
            ),
        ensures
            match updated(*old(self), *settings, now, raw_delay as int) {
                Ok((next, write)) => {
                    &&& r matches Ok(u) && text_of(u.write) == write && u.notice == notice_of(
                        settings.action.unwrap(),
                        *old(self),
                        next,
                        settings.config.free_tries as int,
                    )
                    &&& *final(self) == next
                },
                Err(code) => r == Err::<Updated, PamResultCode>(code) && *final(self) == *old(self),
            },
            r is Ok && r.unwrap().write is Some ==> tally_of_text(r.unwrap().write.unwrap()@)
                == Ok::<Tally, StoreError>(*final(self)),
            r is Ok && settings.action == Some(Actions::PREAUTH) ==> *final(self) == *old(self),
            r is Ok && settings.action == Some(Actions::AUTHSUCC) ==> final(self).failures_count
                == 0 && final(self).unlock_instant is None,
            r is Ok && settings.action == Some(Actions::AUTHFAIL) ==> {
                &&& final(self).failures_count == old(self).failures_count + 1
                &&& final(self).unlock_instant matches Some(unlock) && unlock.as_nanos()
                    - final(self).failure_instant.as_nanos() <= MAX_LOCKOUT_SECONDS
                    * 1_000_000_000
            },
    {
        if settings.user.is_none() {
            return Err(PamResultCode::PAM_USER_UNKNOWN);
        }
        let action = match settings.get_action() {
            Ok(action) => action,
            Err(code) => {
                return Err(code);
            },
        };
        let mut next = *self;
        next.apply(action, now, raw_delay, settings.config.free_tries);
        if !action.writes_tally() {
            return Ok(Updated { write: None, notice: Notice::Nothing });
        }
        match next.to_toml() {
            Ok(text) => {
                let notice = notice(action, self, &next, settings.config.free_tries);
                *self = next;
                Ok(Updated { write: Some(text), notice })
            },
            Err(e) => Err(e.result_code()),
        }
    }

    /// Opens the tally of a principal from what was found where it is kept.
    ///
    /// A file that could not be read, or whose content is malformed, is an
    /// error. Where there is no file, the tally is new, with no failures at
    /// `now`, and `create` holds the document to write, which reads back as
    /// that tally.
    pub fn new_from_tally_file(file: &TallyFile, now: Instant) -> (r: Result<Opened, StoreError>)
        ensures
            match r {
                Ok(o) => opened(*file, now) == Ok::<(Tally, Option<Seq<char>>), StoreError>(
                    (o.tally, text_of(o.create)),
                ),
                Err(e) => opened(*file, now) == Err::<(Tally, Option<Seq<char>>), StoreError>(e),
            },
            r is Ok && r.unwrap().create is Some ==> tally_of_text(r.unwrap().create.unwrap()@)
                == Ok::<Tally, StoreError>(r.unwrap().tally),
    {
        match file {
            TallyFile::Unreadable => Err(StoreError::Unreadable),
            TallyFile::Content(text) => match Tally::parse(text.as_str()) {
                Ok(tally) => Ok(Opened { tally, create: None }),
                Err(e) => Err(e),
            },
            TallyFile::Absent => {
                let tally = Tally::new(now);
                match tally.to_toml() {
                    Ok(text) => Ok(Opened { tally, create: Some(text) }),
                    Err(e) => Err(e),
                }
            },
        }
    }
}

/// Writing and reading agree: a document that is written for a tally reads
/// back as that tally, and opening a file that holds it gives the tally
/// again, with nothing to create, whenever it is opened.
pub proof fn lemma_written_tally_reads_back(tally: Tally, content: String, later: Instant)
    requires
        tally_text(tally) == Some(content@),
    ensures
        tally_of_text(content@) == Ok::<Tally, StoreError>(tally),
        opened(TallyFile::Content(content), later) == Ok::<
            (Tally, Option<Seq<char>>),
            StoreError,
        >((tally, None)),
{
}

/// What is put together is what the entries say: if the document holds,
/// entry by entry, what was put together, and each timestamp reads back as
/// the instant it was written for, then the entries give the tally again.
/// The count must not be negative.
pub proof fn lemma_entries_round_trip(tally: Tally, instant: Seq<char>, unlock: Option<Seq<char>>)
    requires
        tally.failures_count >= 0,
        tally.failure_instant.spec_text() == Some(instant),
        Instant::spec_parse(instant) == Some(tally.failure_instant),
        tally.unlock_instant is Some <==> unlock is Some,
        tally.unlock_instant matches Some(t) ==> t.spec_text() == unlock && Instant::spec_parse(
            unlock.unwrap(),
        ) == Some(t),
    ensures
        composed_text(tally) == Some(record_text(tally.failures_count as int, instant, unlock)),
        tally_of_entries(
            Some(EntryView::Integer(tally.failures_count as i64)),
            Some(EntryView::Text(instant)),
            match unlock {
                Some(text) => Some(EntryView::Text(text)),
                None => None,
            },
        ) == Ok::<Tally, StoreError>(tally),
{
}

} // verus!
