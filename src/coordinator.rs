use vstd::prelude::*;
use vstd::string::StringExecFns;
use crate::defaults::{create_default_state, cycle_id_text, is_cycle_token, is_default_state};
use crate::model::LotteryState;
use crate::validate::validate_lottery_state;

verus! {

/// The operation a session carries out.
#[derive(Debug, Clone)]
pub enum Operation {
    /// Encode the caller's state and write it over the live file.
    Save,
    /// Read the live file, or hand out a fresh state when there is none.
    Load,
    /// Copy the live file to the backup file of the given name, in the same directory.
    Backup(String),
    /// Decode a candidate file and, only if that succeeds, copy it over the live file.
    Restore,
    /// Report whether the live file decodes to a logically valid state.
    Validate,
}

/// Where a session stands: the kind of report it waits for.
#[derive(Debug, Clone, Copy, PartialEq, Eq, Structural)]
pub enum Phase {
    Idle,
    Checking,
    Reading,
    Decoding,
    Encoding,
    Writing,
    Copying,
    Done,
}

/// What the host reports back after doing what it was asked.
#[derive(Debug)]
pub enum Event {
    /// Starts the session.
    Begin,
    /// Whether the file that was asked about exists.
    Exists(bool),
    /// The file was read as text, or why it could not be.
    Read(Result<(), String>),
    /// The text just read, decoded, or why it does not decode.
    Decoded(Result<LotteryState, String>),
    /// The state to save was encoded, or why it could not be.
    Encoded(Result<(), String>),
    /// The encoded text was written to the live file, or why it could not be.
    Written(Result<(), String>),
    /// The copy was made, or why it could not be.
    Copied(Result<(), String>),
}

/// The successful result of an operation.
#[derive(Debug, Clone)]
pub enum Reply {
    Saved,
    Loaded(LotteryState),
    /// The name of the backup file that was written.
    BackedUp(String),
    Restored,
    Valid(bool),
}

/// Why an operation failed.
#[derive(Debug, Clone)]
pub enum StoreError {
    /// The state could not be encoded.
    Encode(String),
    /// The live file could not be written.
    Write(String),
    /// The live file could not be read.
    Read(String),
    /// The live file does not decode: it is malformed or corrupted.
    Decode(String),
    /// There is no live file to back up.
    NoDataFile,
    /// The backup copy failed.
    Backup(String),
    /// The candidate file of a restore does not exist.
    CandidateMissing,
    /// The candidate file could not be read.
    ReadCandidate(String),
    /// The candidate file does not decode; the live file was left alone.
    CandidateDecode(String),
    /// Copying the candidate over the live file failed.
    Restore(String),
}

/// What the host must do next.
#[derive(Debug)]
pub enum Action {
    /// Report whether the live file exists.
    CheckLive,
    /// Report whether the candidate file exists.
    CheckCandidate,
    /// Read the live file as text.
    ReadLive,
    /// Read the candidate file as text.
    ReadCandidate,
    /// Decode the text just read.
    Decode,
    /// Encode the state to save.
    Encode,
    /// Replace the live file with the encoded text.
    WriteLive,
    /// Copy the live file, byte for byte, to the backup file of this name.
    CopyLiveToBackup(String),
    /// Copy the candidate file, byte for byte, over the live file.
    CopyCandidateToLive,
    /// The operation is over, with this result.
    Finish(Result<Reply, StoreError>),
}

impl Action {
    /// The action replaces the contents of the live file.
    pub open spec fn writes_live(self) -> bool {
        self is WriteLive || self is CopyCandidateToLive
    }
}

/// One run of an operation, driven by the host one event at a time.
#[derive(Debug, Clone)]
pub struct Session {
    pub op: Operation,
    pub phase: Phase,
}

/// The name of the backup file made at the time written as `stamp`:
/// `data_backup_<stamp>.json`.
pub open spec fn backup_name_text(stamp: Seq<char>) -> Seq<char> {
    "data_backup_"@ + stamp + ".json"@
}

/// A UTC time written as `YYYYMMDD_HHMMSS`: ASCII digits with `_` before the
/// last six, where a year past 9999 has more digits and a leading `+`.
pub open spec fn is_backup_stamp(t: Seq<char>) -> bool {
    &&& t.len() >= 15
    &&& t[t.len() - 7] == '_'
    &&& forall|i: int|
        0 <= i < t.len() && i != t.len() - 7 ==> ('0' <= #[trigger] t[i] && t[i] <= '9') || (i == 0
            && t[i] == '+')
}

/// `next` is `s` moved to `phase`, and the host is asked for `action`.
pub open spec fn advances(s: Session, next: Session, a: Action, phase: Phase, action: Action) -> bool {
    next == (Session { op: s.op, phase }) && a == action
}

/// `s` is over with the result `out`.
pub open spec fn finishes(s: Session, next: Session, a: Action, out: Result<Reply, StoreError>) -> bool {
    advances(s, next, a, Phase::Done, Action::Finish(out))
}

impl Session {
    /// The phase is one that the operation passes through.
    pub open spec fn wf(self) -> bool {
        match self.op {
            Operation::Save => self.phase is Idle || self.phase is Encoding || self.phase is Writing
                || self.phase is Done,
            Operation::Load | Operation::Validate => self.phase is Idle || self.phase is Checking
                || self.phase is Reading || self.phase is Decoding || self.phase is Done,
            Operation::Backup(_) => self.phase is Idle || self.phase is Checking || self.phase is Copying
                || self.phase is Done,
            Operation::Restore => !(self.phase is Encoding || self.phase is Writing),
        }
    }

    /// `e` is the kind of report the session waits for.
    pub open spec fn expects(self, e: Event) -> bool {
        match self.phase {
            Phase::Idle => e is Begin,
            Phase::Checking => e is Exists,
            Phase::Reading => e is Read,
            Phase::Decoding => e is Decoded,
            Phase::Encoding => e is Encoded,
            Phase::Writing => e is Written,
            Phase::Copying => e is Copied,
            Phase::Done => false,
        }
    }

    /// The protocol: from session `s` and event `e`, the session moves to
    /// `next` and asks the host for `a`.
    pub open spec fn step_spec(s: Session, e: Event, next: Session, a: Action) -> bool {
        match s.op {
            Operation::Save => match (s.phase, e) {
                (Phase::Idle, _) => advances(s, next, a, Phase::Encoding, Action::Encode),
                (Phase::Encoding, Event::Encoded(Err(m))) => finishes(s, next, a, Err(StoreError::Encode(m))),
                (Phase::Encoding, _) => advances(s, next, a, Phase::Writing, Action::WriteLive),
                (Phase::Writing, Event::Written(Err(m))) => finishes(s, next, a, Err(StoreError::Write(m))),
                (_, _) => finishes(s, next, a, Ok(Reply::Saved)),
            },
            Operation::Load => match (s.phase, e) {
                (Phase::Idle, _) => advances(s, next, a, Phase::Checking, Action::CheckLive),
                (Phase::Checking, Event::Exists(true)) => advances(s, next, a, Phase::Reading, Action::ReadLive),
                (Phase::Checking, _) => {
                    &&& next == (Session { op: s.op, phase: Phase::Done })
                    &&& a matches Action::Finish(Ok(Reply::Loaded(st)))
                    &&& is_default_state(st)
                    &&& st.logically_valid()
                    &&& exists|t: Seq<char>|
                        is_cycle_token(t) && st.current_cycle.id@ == #[trigger] cycle_id_text(
                            st.current_cycle.start_time,
                            t,
                        )
                },
                (Phase::Reading, Event::Read(Err(m))) => finishes(s, next, a, Err(StoreError::Read(m))),
                (Phase::Reading, _) => advances(s, next, a, Phase::Decoding, Action::Decode),
                (_, Event::Decoded(Ok(st))) => finishes(s, next, a, Ok(Reply::Loaded(st))),
                (_, Event::Decoded(Err(m))) => finishes(s, next, a, Err(StoreError::Decode(m))),
                (_, _) => false,
            },
            Operation::Validate => match (s.phase, e) {
                (Phase::Idle, _) => advances(s, next, a, Phase::Checking, Action::CheckLive),
                (Phase::Checking, Event::Exists(true)) => advances(s, next, a, Phase::Reading, Action::ReadLive),
                (Phase::Checking, _) => finishes(s, next, a, Ok(Reply::Valid(true))),
                (Phase::Reading, Event::Read(Err(_))) => finishes(s, next, a, Ok(Reply::Valid(false))),
                (Phase::Reading, _) => advances(s, next, a, Phase::Decoding, Action::Decode),
                (_, Event::Decoded(Ok(st))) => finishes(s, next, a, Ok(Reply::Valid(st.logically_valid()))),
                (_, _) => finishes(s, next, a, Ok(Reply::Valid(false))),
            },
            Operation::Backup(name) => match (s.phase, e) {
                (Phase::Idle, _) => advances(s, next, a, Phase::Checking, Action::CheckLive),
                (Phase::Checking, Event::Exists(true)) => advances(
                    s, next, a, Phase::Copying, Action::CopyLiveToBackup(name)),
                (Phase::Checking, _) => finishes(s, next, a, Err(StoreError::NoDataFile)),
                (_, Event::Copied(Err(m))) => finishes(s, next, a, Err(StoreError::Backup(m))),
                (_, _) => finishes(s, next, a, Ok(Reply::BackedUp(name))),
            },
            Operation::Restore => match (s.phase, e) {
                (Phase::Idle, _) => advances(s, next, a, Phase::Checking, Action::CheckCandidate),
                (Phase::Checking, Event::Exists(true)) => advances(
                    s, next, a, Phase::Reading, Action::ReadCandidate),
                (Phase::Checking, _) => finishes(s, next, a, Err(StoreError::CandidateMissing)),
                (Phase::Reading, Event::Read(Err(m))) => finishes(s, next, a, Err(StoreError::ReadCandidate(m))),
                (Phase::Reading, _) => advances(s, next, a, Phase::Decoding, Action::Decode),
                (Phase::Decoding, Event::Decoded(Err(m))) => finishes(
                    s, next, a, Err(StoreError::CandidateDecode(m))),
                (Phase::Decoding, _) => advances(s, next, a, Phase::Copying, Action::CopyCandidateToLive),
                (_, Event::Copied(Err(m))) => finishes(s, next, a, Err(StoreError::Restore(m))),
                (_, _) => finishes(s, next, a, Ok(Reply::Restored)),
            },
        }
    }
}

/// Relies on chrono's `Utc::now` and `DateTime::format`: the current UTC time
/// written with the strftime items of `pattern`. Formatting panics on an
/// invalid pattern, so only the backup stamp pattern is admitted. `%Y` writes
/// at least four digits, with a `+` only past year 9999 (the clock is never
/// before 1970), and the other items two digits each.
#[verifier::external_body]
fn utc_now_formatted(pattern: &str) -> (r: String)
    requires
        pattern@ == "%Y%m%d_%H%M%S"@,
    ensures
        is_backup_stamp(r@),
{
    chrono::Utc::now().format(pattern).to_string()
}

/// The name `data_backup_<stamp>.json` of the backup file made at the time
/// written as `stamp`.
pub fn backup_file_name(stamp: &str) -> (r: String)
    ensures
        r@ == backup_name_text(stamp@),
{
    let mut name = String::from_str("data_backup_");
    name.append(stamp);
    name.append(".json");
    name
}

impl Session {
    /// A session that saves the caller's state.
    pub fn save() -> (r: Session)
        ensures
            r == (Session { op: Operation::Save, phase: Phase::Idle }),
    {
        Session { op: Operation::Save, phase: Phase::Idle }
    }

    /// A session that loads the live state.
    pub fn load() -> (r: Session)
        ensures
            r == (Session { op: Operation::Load, phase: Phase::Idle }),
    {
        Session { op: Operation::Load, phase: Phase::Idle }
    }

    /// A session that restores the live file from a candidate file.
    pub fn restore() -> (r: Session)
        ensures
            r == (Session { op: Operation::Restore, phase: Phase::Idle }),
    {
        Session { op: Operation::Restore, phase: Phase::Idle }
    }

    /// A session that checks the live file.
    pub fn validate() -> (r: Session)
        ensures
            r == (Session { op: Operation::Validate, phase: Phase::Idle }),
    {
        Session { op: Operation::Validate, phase: Phase::Idle }
    }

    /// A session that backs up the live file to the backup file named after
    /// the time written as `stamp`.
    pub fn backup_at(stamp: &str) -> (r: Session)
        ensures
            r.phase == Phase::Idle,
            r.op matches Operation::Backup(name) && name@ == backup_name_text(stamp@),
    {
        Session { op: Operation::Backup(backup_file_name(stamp)), phase: Phase::Idle }
    }

    /// A session that backs up the live file to a backup file named after the
    /// current UTC time, to the second (`YYYYMMDD_HHMMSS`).
    pub fn backup() -> (r: Session)
        ensures
            r.phase == Phase::Idle,
            r.op matches Operation::Backup(name) && exists|stamp: Seq<char>|
                is_backup_stamp(stamp) && name@ == #[trigger] backup_name_text(stamp),
    {
        let stamp = utc_now_formatted("%Y%m%d_%H%M%S");
        Session::backup_at(stamp.as_str())
    }

    /// The session is over.
    pub fn is_done(&self) -> (r: bool)
        ensures
            r == (self.phase == Phase::Done),
    {
        self.phase == Phase::Done
    }

    /// Whether `e` is the kind of report the session waits for.
    pub fn accepts(&self, e: &Event) -> (r: bool)
        ensures
            r == self.expects(*e),
    {
        match (self.phase, e) {
            (Phase::Idle, Event::Begin) => true,
            (Phase::Checking, Event::Exists(_)) => true,
            (Phase::Reading, Event::Read(_)) => true,
            (Phase::Decoding, Event::Decoded(_)) => true,
            (Phase::Encoding, Event::Encoded(_)) => true,
            (Phase::Writing, Event::Written(_)) => true,
            (Phase::Copying, Event::Copied(_)) => true,
            (_, _) => false,
        }
    }

    /// Takes the host's report `e` and answers with the next session and what
    /// the host must do next.
    pub fn step(self, e: Event) -> (r: (Session, Action))
        requires
            self.wf(),
            self.expects(e),
        ensures
            Session::step_spec(self, e, r.0, r.1),
            r.0.wf(),
    {
        let phase = self.phase;
        match self.op {
            Operation::Save => {
                let (phase, action) = match (phase, e) {
                    (Phase::Idle, _) => (Phase::Encoding, Action::Encode),
                    (Phase::Encoding, Event::Encoded(Err(m))) => (
                        Phase::Done,
                        Action::Finish(Err(StoreError::Encode(m))),
                    ),
                    (Phase::Encoding, _) => (Phase::Writing, Action::WriteLive),
                    (Phase::Writing, Event::Written(Err(m))) => (
                        Phase::Done,
                        Action::Finish(Err(StoreError::Write(m))),
                    ),
                    (_, _) => (Phase::Done, Action::Finish(Ok(Reply::Saved))),
                };
                (Session { op: Operation::Save, phase }, action)
            },
            Operation::Load => {
                let (phase, action) = match (phase, e) {
                    (Phase::Idle, _) => (Phase::Checking, Action::CheckLive),
                    (Phase::Checking, Event::Exists(true)) => (Phase::Reading, Action::ReadLive),
                    (Phase::Checking, _) => (
                        Phase::Done,
                        Action::Finish(Ok(Reply::Loaded(create_default_state()))),
                    ),
                    (Phase::Reading, Event::Read(Err(m))) => (
                        Phase::Done,
                        Action::Finish(Err(StoreError::Read(m))),
                    ),
                    (Phase::Reading, _) => (Phase::Decoding, Action::Decode),
                    (_, Event::Decoded(Ok(st))) => (Phase::Done, Action::Finish(Ok(Reply::Loaded(st)))),
                    (_, Event::Decoded(Err(m))) => (
                        Phase::Done,
                        Action::Finish(Err(StoreError::Decode(m))),
                    ),
                    (_, _) => (Phase::Done, Action::Finish(Err(StoreError::Decode(String::new())))),
                };
                (Session { op: Operation::Load, phase }, action)
            },
            Operation::Validate => {
                let (phase, action) = match (phase, e) {
                    (Phase::Idle, _) => (Phase::Checking, Action::CheckLive),
                    (Phase::Checking, Event::Exists(true)) => (Phase::Reading, Action::ReadLive),
                    (Phase::Checking, _) => (Phase::Done, Action::Finish(Ok(Reply::Valid(true)))),
                    (Phase::Reading, Event::Read(Err(_))) => (
                        Phase::Done,
                        Action::Finish(Ok(Reply::Valid(false))),
                    ),
                    (Phase::Reading, _) => (Phase::Decoding, Action::Decode),
                    (_, Event::Decoded(Ok(st))) => {
                        let valid = match validate_lottery_state(&st) {
                            Ok(v) => v,
                            Err(_) => false,
                        };
                        (Phase::Done, Action::Finish(Ok(Reply::Valid(valid))))
                    },
                    (_, _) => (Phase::Done, Action::Finish(Ok(Reply::Valid(false)))),
                };
                (Session { op: Operation::Validate, phase }, action)
            },
            Operation::Backup(name) => {
                let (phase, action, name) = match (phase, e) {
                    (Phase::Idle, _) => (Phase::Checking, Action::CheckLive, name),
                    (Phase::Checking, Event::Exists(true)) => {
                        let target = name.clone();
                        (Phase::Copying, Action::CopyLiveToBackup(target), name)
                    },
                    (Phase::Checking, _) => (Phase::Done, Action::Finish(Err(StoreError::NoDataFile)), name),
                    (_, Event::Copied(Err(m))) => (
                        Phase::Done,
                        Action::Finish(Err(StoreError::Backup(m))),
                        name,
                    ),
                    (_, _) => {
                        let written = name.clone();
                        (Phase::Done, Action::Finish(Ok(Reply::BackedUp(written))), name)
                    },
                };
                (Session { op: Operation::Backup(name), phase }, action)
            },
            Operation::Restore => {
                let (phase, action) = match (phase, e) {
                    (Phase::Idle, _) => (Phase::Checking, Action::CheckCandidate),
                    (Phase::Checking, Event::Exists(true)) => (Phase::Reading, Action::ReadCandidate),
                    (Phase::Checking, _) => (Phase::Done, Action::Finish(Err(StoreError::CandidateMissing))),
                    (Phase::Reading, Event::Read(Err(m))) => (
                        Phase::Done,
                        Action::Finish(Err(StoreError::ReadCandidate(m))),
                    ),
                    (Phase::Reading, _) => (Phase::Decoding, Action::Decode),
                    (Phase::Decoding, Event::Decoded(Err(m))) => (
                        Phase::Done,
                        Action::Finish(Err(StoreError::CandidateDecode(m))),
                    ),
                    (Phase::Decoding, _) => (Phase::Copying, Action::CopyCandidateToLive),
                    (_, Event::Copied(Err(m))) => (
                        Phase::Done,
                        Action::Finish(Err(StoreError::Restore(m))),
                    ),
                    (_, _) => (Phase::Done, Action::Finish(Ok(Reply::Restored))),
                };
                (Session { op: Operation::Restore, phase }, action)
            },
        }
    }
}

/// Loading when the live file is absent ends the session at once with a fresh
/// valid state, and asks for nothing to be written: the file is not created.
pub proof fn lemma_absent_file_load(next: Session, a: Action)
    requires
        Session::step_spec(
            Session { op: Operation::Load, phase: Phase::Checking },
            Event::Exists(false),
            next,
            a,
        ),
    ensures
        next.phase == Phase::Done,
        !a.writes_live(),
        a matches Action::Finish(Ok(Reply::Loaded(st))) && is_default_state(st) && st.logically_valid()
            && exists|t: Seq<char>|
            is_cycle_token(t) && st.current_cycle.id@ == #[trigger] cycle_id_text(st.current_cycle.start_time, t),
{
}

/// A backup fails with `NoDataFile` when there is no live file; otherwise the
/// live file is copied to the session's backup file, and once the copy is
/// made that name is returned.
pub proof fn lemma_backup_precondition(name: String, exists: bool, next: Session, a: Action)
    requires
        Session::step_spec(
            Session { op: Operation::Backup(name), phase: Phase::Checking },
            Event::Exists(exists),
            next,
            a,
        ),
    ensures
        !exists ==> a == Action::Finish(Err(StoreError::NoDataFile)),
        exists ==> a == Action::CopyLiveToBackup(name),
        !a.writes_live(),
{
}

/// A backup whose copy was made returns the name of the file it copied to.
pub proof fn lemma_backup_returns_copy(name: String, next: Session, a: Action)
    requires
        Session::step_spec(
            Session { op: Operation::Backup(name), phase: Phase::Copying },
            Event::Copied(Ok(())),
            next,
            a,
        ),
    ensures
        a == Action::Finish(Ok(Reply::BackedUp(name))),
{
}

/// The live file is replaced only by a save whose state was encoded, or by a
/// restore whose candidate file was decoded; nothing else writes it.
pub proof fn lemma_live_written_only_after_success(s: Session, e: Event, next: Session, a: Action)
    requires
        s.wf(),
        s.expects(e),
        Session::step_spec(s, e, next, a),
        a.writes_live(),
    ensures
        (s.op is Save && s.phase == Phase::Encoding && e == Event::Encoded(Ok(())))
            || (s.op is Restore && s.phase == Phase::Decoding && e matches Event::Decoded(Ok(_))),
{
    match s.op {
        Operation::Save => {
            assert(s.phase == Phase::Encoding);
            assert(e matches Event::Encoded(Ok(u)) && u == ());
        },
        Operation::Restore => {},
        _ => {},
    }
}

/// A restore whose candidate does not decode ends with a decode error and
/// leaves the live file alone; one whose candidate decodes goes on to copy it
/// over the live file, whether or not the decoded state is logically valid.
pub proof fn lemma_restore_safety(decoded: Result<LotteryState, String>, next: Session, a: Action)
    requires
        Session::step_spec(
            Session { op: Operation::Restore, phase: Phase::Decoding },
            Event::Decoded(decoded),
            next,
            a,
        ),
    ensures
        decoded matches Err(m) ==> a == Action::Finish(Err(StoreError::CandidateDecode(m)))
            && !a.writes_live(),
        decoded is Ok ==> a == Action::CopyCandidateToLive,
{
}

} // verus!
