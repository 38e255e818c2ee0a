use vstd::prelude::*;

use crate::auth::{
    auth_check_allows,
    check_auth_contents,
    is_auth_document,
    json_document_is_object,
    json_error_message,
};
use crate::error::{error_text, AccountsError};
use crate::strings::{decimal, decimal_string, has_prefix};

verus! {

/// Permissions of a directory that only its owner may use.
pub const PRIVATE_DIR_MODE: u32 = 0o700;

/// Permissions of a file that only its owner may read and write.
pub const PRIVATE_FILE_MODE: u32 = 0o600;

/// How many times a clash of temporary file names is retried.
pub const TEMP_RETRIES: u32 = 10;

/// The file name of a temporary file next to `filename`: a dot, the file
/// name, a dot, the process id, a dot and a time stamp in nanoseconds, so
/// that it is hidden and unlikely to clash.
pub fn temporary_name(filename: &str, pid: u32, nanos: u128) -> (r: String)
    ensures
        r@ == "."@ + filename@ + "."@ + decimal(pid as nat) + "."@ + decimal(nanos as nat),
{
    let mut s = String::from_str(".");
    s.append(filename);
    s.append(".");
    let p = decimal_string(pid as u128);
    s.append(p.as_str());
    s.append(".");
    let t = decimal_string(nanos);
    s.append(t.as_str());
    s
}

/// What `symlink_metadata` says a path is.
#[derive(PartialEq, Eq, Structural, Clone, Copy)]
pub enum EntryKind {
    File,
    Directory,
    Symlink,
    Other,
}

/// The paths that a copy works on, besides the source.
#[derive(PartialEq, Eq, Structural, Clone, Copy)]
pub enum CopyTarget {
    /// The grandparent of the destination, when it is the profile root.
    ProfileRoot,
    /// The directory that holds the destination.
    Parent,
    /// The temporary file next to the destination.
    Temporary,
    /// The destination itself.
    Destination,
}

/// What the caller is asked to do next.
pub enum CopyAction {
    /// Look at the source without following a symlink (`symlink_metadata`).
    InspectSource,
    /// Read the whole source file.
    ReadSource,
    /// Create a directory and its missing parents.
    CreateDir(CopyTarget),
    /// Set the permission bits of a path.
    Restrict(CopyTarget, u32),
    /// Whether the destination exists (following symlinks).
    CheckDestinationExists,
    /// Whether the destination itself is a symlink.
    CheckDestinationSymlink,
    /// Create a new temporary file with a fresh name, refusing to open an
    /// existing one.
    CreateTemporary,
    /// Write all of `data()` to the temporary file, flush it to disk and
    /// close it.
    WriteTemporary,
    /// Remove the temporary file; the outcome does not matter.
    RemoveTemporary,
    /// Rename the temporary file over the destination.
    RenameTemporary,
    /// The copy is over, with this outcome.
    Finish(Result<(), AccountsError>),
}

/// How creating a temporary file went.
pub enum TempOutcome {
    Created,
    /// A file of that name was there already (the error's text).
    AlreadyExists(String),
    /// Any other failure (the error's text).
    Failed(String),
}

/// What the caller reports back after doing an action.
pub enum CopyEvent {
    /// The answer to `InspectSource`.
    Inspected(Result<EntryKind, String>),
    /// The answer to `ReadSource`.
    Read(Result<Vec<u8>, String>),
    /// The outcome of `CreateDir`, `Restrict`, `WriteTemporary`,
    /// `RemoveTemporary` or `RenameTemporary`.
    Completed(Result<(), String>),
    /// The answer to `CheckDestinationExists` or `CheckDestinationSymlink`.
    Answered(bool),
    /// The answer to `CreateTemporary`.
    TemporaryCreated(TempOutcome),
}

/// What the copy knows about its paths before it starts.
pub struct CopyContext {
    /// Replace an existing destination.
    pub overwrite: bool,
    /// The destination has a parent directory.
    pub has_parent: bool,
    /// The destination's grandparent is a directory named
    /// `account-profiles`.
    pub root_is_profile_dir: bool,
    /// The paths as they are shown in messages.
    pub source_display: String,
    pub destination_display: String,
    pub parent_display: String,
    pub root_display: String,
    /// How an existing destination is named in the "already exists" error.
    pub exists_label: String,
}

/// Where the copy stands.
pub enum CopyPhase {
    InspectingSource,
    ReadingSource,
    CreatingRoot,
    RestrictingRoot,
    CreatingParent,
    RestrictingParent,
    CheckingExists,
    CheckingSymlink,
    CreatingTemporary,
    RestrictingTemporary,
    WritingTemporary,
    Renaming,
    RestrictingDestination,
    RestrictingParentAfter,
    /// Removing the temporary file after a failure, which is then reported.
    CleaningUp(AccountsError),
    Finished,
}

/// What the copy has learnt and done so far.
pub ghost struct CopyHistory {
    pub destination_existed: Option<bool>,
    pub destination_was_symlink: Option<bool>,
    pub temporary_restricted: bool,
    pub temporary_written: bool,
    pub renamed: bool,
    pub destination_restricted: bool,
}

/// The decisions of copying a credential file onto a destination through a
/// temporary file: the source must be a regular file holding a JSON object;
/// an existing destination is kept unless overwriting is asked; a symlink is
/// never replaced; the destination is only ever replaced by renaming a fully
/// written temporary file over it.
pub struct CopyMachine {
    pub ctx: CopyContext,
    pub phase: CopyPhase,
    /// The bytes read from the source.
    pub data: Vec<u8>,
    /// How many clashes of temporary names have been retried.
    pub attempts: u32,
    pub history: Ghost<CopyHistory>,
}

pub open spec fn empty_history() -> CopyHistory {
    CopyHistory {
        destination_existed: None,
        destination_was_symlink: None,
        temporary_restricted: false,
        temporary_written: false,
        renamed: false,
        destination_restricted: false,
    }
}

pub open spec fn in_phase(m: CopyMachine, p: CopyPhase) -> CopyMachine {
    CopyMachine { phase: p, ..m }
}

pub open spec fn with_history(m: CopyMachine, p: CopyPhase, h: CopyHistory) -> CopyMachine {
    CopyMachine { phase: p, history: Ghost(h), ..m }
}

pub open spec fn finish(m: CopyMachine, r: Result<(), AccountsError>) -> (CopyMachine, CopyAction) {
    (in_phase(m, CopyPhase::Finished), CopyAction::Finish(r))
}

pub open spec fn fail(m: CopyMachine, e: AccountsError) -> (CopyMachine, CopyAction) {
    finish(m, Err(e))
}

/// Where the copy goes once the source has been read and accepted.
pub open spec fn after_source(m: CopyMachine) -> (CopyMachine, CopyAction) {
    if !m.ctx.has_parent {
        fail(m, AccountsError::NoParentDirectory)
    } else if m.ctx.root_is_profile_dir {
        (in_phase(m, CopyPhase::CreatingRoot), CopyAction::CreateDir(CopyTarget::ProfileRoot))
    } else {
        (in_phase(m, CopyPhase::CreatingParent), CopyAction::CreateDir(CopyTarget::Parent))
    }
}

/// The event is the kind of answer that the phase waits for.
pub open spec fn accepts_spec(phase: CopyPhase, e: CopyEvent) -> bool {
    match phase {
        CopyPhase::InspectingSource => e is Inspected,
        CopyPhase::ReadingSource => e is Read,
        CopyPhase::CheckingExists | CopyPhase::CheckingSymlink => e is Answered,
        CopyPhase::CreatingTemporary => e is TemporaryCreated,
        CopyPhase::Finished => false,
        _ => e is Completed,
    }
}

/// One step of the copy. `verdict` is the outcome of checking the source's
/// bytes; it matters only when they have just been read (see
/// `verdict_allowed`).
pub open spec fn copy_next(m: CopyMachine, e: CopyEvent, verdict: Result<(), AccountsError>) -> (
    CopyMachine,
    CopyAction,
) {
    let h = m.history@;
    let c = m.ctx;
    match (m.phase, e) {
        (CopyPhase::InspectingSource, CopyEvent::Inspected(r)) => match r {
            Err(cause) => fail(
                m,
                AccountsError::AuthNotFound { path: c.source_display, cause },
            ),
            Ok(kind) => if kind == EntryKind::File {
                (in_phase(m, CopyPhase::ReadingSource), CopyAction::ReadSource)
            } else {
                fail(m, AccountsError::AuthNotRegularFile { path: c.source_display })
            },
        },
        (CopyPhase::ReadingSource, CopyEvent::Read(r)) => match r {
            Err(cause) => fail(m, AccountsError::CannotRead { path: c.source_display, cause }),
            Ok(bytes) => match verdict {
                Err(err) => fail(m, err),
                Ok(_) => after_source(CopyMachine { data: bytes, ..m }),
            },
        },
        (CopyPhase::CreatingRoot, CopyEvent::Completed(r)) => match r {
            Err(cause) => fail(m, AccountsError::CannotCreateDir { path: c.root_display, cause }),
            Ok(_) => (
                in_phase(m, CopyPhase::RestrictingRoot),
                CopyAction::Restrict(CopyTarget::ProfileRoot, PRIVATE_DIR_MODE),
            ),
        },
        (CopyPhase::RestrictingRoot, CopyEvent::Completed(r)) => match r {
            Err(cause) => fail(m, AccountsError::CannotRestrictDir { path: c.root_display, cause }),
            Ok(_) => (
                in_phase(m, CopyPhase::CreatingParent),
                CopyAction::CreateDir(CopyTarget::Parent),
            ),
        },
        (CopyPhase::CreatingParent, CopyEvent::Completed(r)) => match r {
            Err(cause) => fail(m, AccountsError::CannotCreateDir { path: c.parent_display, cause }),
            Ok(_) => (
                in_phase(m, CopyPhase::RestrictingParent),
                CopyAction::Restrict(CopyTarget::Parent, PRIVATE_DIR_MODE),
            ),
        },
        (CopyPhase::RestrictingParent, CopyEvent::Completed(r)) => match r {
            Err(cause) => fail(
                m,
                AccountsError::CannotRestrictDir { path: c.parent_display, cause },
            ),
            Ok(_) => (in_phase(m, CopyPhase::CheckingExists), CopyAction::CheckDestinationExists),
        },
        (CopyPhase::CheckingExists, CopyEvent::Answered(exists)) => {
            let m2 = with_history(
                m,
                CopyPhase::CheckingSymlink,
                CopyHistory { destination_existed: Some(exists), ..h },
            );
            if exists && !c.overwrite {
                fail(m2, AccountsError::ProfileExists { label: c.exists_label })
            } else {
                (m2, CopyAction::CheckDestinationSymlink)
            }
        },
        (CopyPhase::CheckingSymlink, CopyEvent::Answered(is_symlink)) => {
            let m2 = with_history(
                m,
                CopyPhase::CreatingTemporary,
                CopyHistory { destination_was_symlink: Some(is_symlink), ..h },
            );
            if is_symlink {
                fail(m2, AccountsError::RefuseReplaceSymlink { path: c.destination_display })
            } else {
                (m2, CopyAction::CreateTemporary)
            }
        },
        (CopyPhase::CreatingTemporary, CopyEvent::TemporaryCreated(t)) => match t {
            TempOutcome::Created => (
                in_phase(m, CopyPhase::RestrictingTemporary),
                CopyAction::Restrict(CopyTarget::Temporary, PRIVATE_FILE_MODE),
            ),
            TempOutcome::AlreadyExists(cause) => if m.attempts < TEMP_RETRIES {
                (
                    CopyMachine { attempts: (m.attempts + 1) as u32, ..m },
                    CopyAction::CreateTemporary,
                )
            } else {
                fail(m, AccountsError::CannotCreateTemp { cause })
            },
            TempOutcome::Failed(cause) => fail(m, AccountsError::CannotCreateTemp { cause }),
        },
        (CopyPhase::RestrictingTemporary, CopyEvent::Completed(r)) => match r {
            Err(cause) => fail(m, AccountsError::CannotRestrictTemp { cause }),
            Ok(_) => (
                with_history(
                    m,
                    CopyPhase::WritingTemporary,
                    CopyHistory { temporary_restricted: true, ..h },
                ),
                CopyAction::WriteTemporary,
            ),
        },
        (CopyPhase::WritingTemporary, CopyEvent::Completed(r)) => match r {
            Err(cause) => (
                in_phase(m, CopyPhase::CleaningUp(AccountsError::CannotWriteTemp { cause })),
                CopyAction::RemoveTemporary,
            ),
            Ok(_) => (
                with_history(
                    m,
                    CopyPhase::Renaming,
                    CopyHistory { temporary_written: true, ..h },
                ),
                CopyAction::RenameTemporary,
            ),
        },
        (CopyPhase::Renaming, CopyEvent::Completed(r)) => match r {
            Err(cause) => (
                in_phase(
                    m,
                    CopyPhase::CleaningUp(
                        AccountsError::CannotActivate { path: c.destination_display, cause },
                    ),
                ),
                CopyAction::RemoveTemporary,
            ),
            Ok(_) => (
                with_history(
                    m,
                    CopyPhase::RestrictingDestination,
                    CopyHistory { renamed: true, ..h },
                ),
                CopyAction::Restrict(CopyTarget::Destination, PRIVATE_FILE_MODE),
            ),
        },
        (CopyPhase::CleaningUp(err), CopyEvent::Completed(_)) => fail(m, err),
        (CopyPhase::RestrictingDestination, CopyEvent::Completed(r)) => match r {
            Err(cause) => fail(
                m,
                AccountsError::SavedButUnrestricted { path: c.destination_display, cause },
            ),
            Ok(_) => (
                with_history(
                    m,
                    CopyPhase::RestrictingParentAfter,
                    CopyHistory { destination_restricted: true, ..h },
                ),
                CopyAction::Restrict(CopyTarget::Parent, PRIVATE_DIR_MODE),
            ),
        },
        (CopyPhase::RestrictingParentAfter, CopyEvent::Completed(r)) => match r {
            Err(cause) => fail(
                m,
                AccountsError::SavedButUnrestricted { path: c.parent_display, cause },
            ),
            Ok(_) => finish(m, Ok(())),
        },
        // An answer the phase does not wait for; `step` never takes one.
        _ => (m, CopyAction::Finish(Ok(()))),
    }
}

/// The verdicts on the source's bytes that a step may be given: when the
/// bytes have just been read, an outcome of checking them; otherwise any.
pub open spec fn verdict_allowed(m: CopyMachine, e: CopyEvent, verdict: Result<(), AccountsError>) -> bool {
    match (m.phase, e) {
        (CopyPhase::ReadingSource, CopyEvent::Read(Ok(bytes))) => auth_check_allows(
            m.ctx.source_display,
            bytes@,
            verdict,
        ),
        _ => true,
    }
}

/// One step of the copy, as the caller sees it: some allowed verdict leads
/// from `m` to `m2` with action `a`.
pub open spec fn copy_step(m: CopyMachine, e: CopyEvent, m2: CopyMachine, a: CopyAction) -> bool {
    exists|verdict: Result<(), AccountsError>|
        verdict_allowed(m, e, verdict) && #[trigger] copy_next(m, e, verdict) == (m2, a)
}

/// The phase comes after the source has been read and accepted.
pub open spec fn source_accepted(p: CopyPhase) -> bool {
    !(p is InspectingSource || p is ReadingSource || p is Finished)
}

/// The phase comes after the destination was found absent, or replaceable.
pub open spec fn past_exists_check(p: CopyPhase) -> bool {
    source_accepted(p) && !(p is CreatingRoot || p is RestrictingRoot || p is CreatingParent
        || p is RestrictingParent || p is CheckingExists)
}

/// The phase comes after the destination was found not to be a symlink.
pub open spec fn past_symlink_check(p: CopyPhase) -> bool {
    past_exists_check(p) && !(p is CheckingSymlink)
}

/// The phase comes after the temporary file was made private.
pub open spec fn past_temp_restrict(p: CopyPhase) -> bool {
    p is WritingTemporary || p is Renaming || p is RestrictingDestination
        || p is RestrictingParentAfter || p is CleaningUp
}

/// The phase comes after the temporary file was written in full.
pub open spec fn past_write(p: CopyPhase) -> bool {
    p is Renaming || p is RestrictingDestination || p is RestrictingParentAfter
}

/// The phase comes after the temporary file replaced the destination.
pub open spec fn past_rename(p: CopyPhase) -> bool {
    p is RestrictingDestination || p is RestrictingParentAfter
}

/// The position of a phase in the order in which a copy goes through them.
pub open spec fn phase_rank(p: CopyPhase) -> int {
    match p {
        CopyPhase::InspectingSource => 0,
        CopyPhase::ReadingSource => 1,
        CopyPhase::CreatingRoot => 2,
        CopyPhase::RestrictingRoot => 3,
        CopyPhase::CreatingParent => 4,
        CopyPhase::RestrictingParent => 5,
        CopyPhase::CheckingExists => 6,
        CopyPhase::CheckingSymlink => 7,
        CopyPhase::CreatingTemporary => 8,
        CopyPhase::RestrictingTemporary => 9,
        CopyPhase::WritingTemporary => 10,
        CopyPhase::Renaming => 11,
        CopyPhase::CleaningUp(_) => 12,
        CopyPhase::RestrictingDestination => 12,
        CopyPhase::RestrictingParentAfter => 13,
        CopyPhase::Finished => 14,
    }
}

/// A bound on the number of steps that are left.
pub open spec fn steps_left_bound(m: CopyMachine) -> int {
    (14 - phase_rank(m.phase)) * 11 + (TEMP_RETRIES - m.attempts)
}

impl CopyMachine {
    /// The facts that hold in every state that a copy reaches.
    pub open spec fn wf(&self) -> bool {
        let h = self.history@;
        &&& self.attempts <= TEMP_RETRIES
        &&& source_accepted(self.phase) ==> is_auth_document(self.data@)
        &&& (self.phase is CreatingRoot || self.phase is RestrictingRoot)
            ==> self.ctx.root_is_profile_dir
        &&& source_accepted(self.phase) ==> self.ctx.has_parent
        &&& past_exists_check(self.phase) ==> (h.destination_existed matches Some(existed) && (
        !existed || self.ctx.overwrite))
        &&& past_symlink_check(self.phase) ==> h.destination_was_symlink == Some(false)
        &&& past_temp_restrict(self.phase) ==> h.temporary_restricted
        &&& past_write(self.phase) ==> h.temporary_written
        &&& past_rename(self.phase) ==> h.renamed
        &&& self.phase is RestrictingParentAfter ==> h.destination_restricted
        &&& !past_rename(self.phase) && !(self.phase is Finished) ==> !h.renamed
        &&& self.phase matches CopyPhase::CleaningUp(err) ==> (err is CannotWriteTemp
            || err is CannotActivate)
    }
}

/// Every step keeps the facts of `wf`.
pub proof fn lemma_copy_step_keeps_wf(
    m: CopyMachine,
    e: CopyEvent,
    verdict: Result<(), AccountsError>,
)
    requires
        m.wf(),
        accepts_spec(m.phase, e),
        verdict_allowed(m, e, verdict),
    ensures
        copy_next(m, e, verdict).0.wf(),
{
}

/// Every step brings a copy closer to its end, so that a copy asks for at
/// most 164 answers; a finished copy asks for none.
pub proof fn lemma_copy_step_progress(
    m: CopyMachine,
    e: CopyEvent,
    verdict: Result<(), AccountsError>,
)
    requires
        m.wf(),
        accepts_spec(m.phase, e),
    ensures
        0 <= steps_left_bound(copy_next(m, e, verdict).0) < steps_left_bound(m),
        steps_left_bound(m) <= 14 * 11 + TEMP_RETRIES,
{
}

impl CopyMachine {
    /// Starts a copy; the first action is to look at the source.
    pub fn new(ctx: CopyContext) -> (r: (CopyMachine, CopyAction))
        ensures
            r.0.wf(),
            r.0.ctx == ctx,
            r.0.phase == CopyPhase::InspectingSource,
            r.0.attempts == 0,
            r.0.data@.len() == 0,
            r.0.history@ == empty_history(),
            r.1 == CopyAction::InspectSource,
    {
        let m = CopyMachine {
            ctx,
            phase: CopyPhase::InspectingSource,
            data: Vec::new(),
            attempts: 0,
            history: Ghost(empty_history()),
        };
        (m, CopyAction::InspectSource)
    }

    /// Whether the copy waits for an answer of this kind.
    pub fn accepts(&self, e: &CopyEvent) -> (b: bool)
        ensures
            b == accepts_spec(self.phase, *e),
    {
        match (&self.phase, e) {
            (CopyPhase::InspectingSource, CopyEvent::Inspected(_)) => true,
            (CopyPhase::ReadingSource, CopyEvent::Read(_)) => true,
            (CopyPhase::CheckingExists, CopyEvent::Answered(_)) => true,
            (CopyPhase::CheckingSymlink, CopyEvent::Answered(_)) => true,
            (CopyPhase::CreatingTemporary, CopyEvent::TemporaryCreated(_)) => true,
            (CopyPhase::InspectingSource, _) => false,
            (CopyPhase::ReadingSource, _) => false,
            (CopyPhase::CheckingExists, _) => false,
            (CopyPhase::CheckingSymlink, _) => false,
            (CopyPhase::CreatingTemporary, _) => false,
            (CopyPhase::Finished, _) => false,
            (_, CopyEvent::Completed(_)) => true,
            _ => false,
        }
    }

    /// Whether the copy is over.
    pub fn is_finished(&self) -> (b: bool)
        ensures
            b == (self.phase is Finished),
    {
        match self.phase {
            CopyPhase::Finished => true,
            _ => false,
        }
    }

    /// The bytes that `WriteTemporary` writes: those read from the source.
    pub fn data(&self) -> (r: &[u8])
        ensures
            r@ == self.data@,
    {
        self.data.as_slice()
    }

    fn after_source(&mut self) -> (a: CopyAction)
        ensures
            (*final(self), a) == after_source(*old(self)),
    {
        if !self.ctx.has_parent {
            self.phase = CopyPhase::Finished;
            CopyAction::Finish(Err(AccountsError::NoParentDirectory))
        } else if self.ctx.root_is_profile_dir {
            self.phase = CopyPhase::CreatingRoot;
            CopyAction::CreateDir(CopyTarget::ProfileRoot)
        } else {
            self.phase = CopyPhase::CreatingParent;
            CopyAction::CreateDir(CopyTarget::Parent)
        }
    }

    /// Takes the answer to the last action and gives the next action.
    pub fn step(&mut self, event: CopyEvent) -> (a: CopyAction)
        requires
            old(self).wf(),
            accepts_spec(old(self).phase, event),
        ensures
            copy_step(*old(self), event, *final(self), a),
            final(self).wf(),
    {
        let ghost m0 = *self;
        let ghost e0 = event;
        let ghost mut verdict: Result<(), AccountsError> = Ok(());
        let ghost h = self.history@;
        let mut phase = CopyPhase::Finished;
        std::mem::swap(&mut phase, &mut self.phase);
        let action = match (phase, event) {
            (CopyPhase::InspectingSource, CopyEvent::Inspected(r)) => match r {
                Err(cause) => CopyAction::Finish(
                    Err(
                        AccountsError::AuthNotFound {
                            path: self.ctx.source_display.clone(),
                            cause,
                        },
                    ),
                ),
                Ok(kind) => if kind == EntryKind::File {
                    self.phase = CopyPhase::ReadingSource;
                    CopyAction::ReadSource
                } else {
                    CopyAction::Finish(
                        Err(
                            AccountsError::AuthNotRegularFile {
                                path: self.ctx.source_display.clone(),
                            },
                        ),
                    )
                },
            },
            (CopyPhase::ReadingSource, CopyEvent::Read(r)) => match r {
                Err(cause) => CopyAction::Finish(
                    Err(AccountsError::CannotRead { path: self.ctx.source_display.clone(), cause }),
                ),
                Ok(bytes) => {
                    let v = check_auth_contents(&self.ctx.source_display, bytes.as_slice());
                    proof {
                        verdict = v;
                    }
                    match v {
                        Err(err) => CopyAction::Finish(Err(err)),
                        Ok(_) => {
                            self.data = bytes;
                            self.phase = CopyPhase::ReadingSource;
                            self.after_source()
                        },
                    }
                },
            },
            (CopyPhase::CreatingRoot, CopyEvent::Completed(r)) => match r {
                Err(cause) => CopyAction::Finish(
                    Err(AccountsError::CannotCreateDir { path: self.ctx.root_display.clone(), cause }),
                ),
                Ok(_) => {
                    self.phase = CopyPhase::RestrictingRoot;
                    CopyAction::Restrict(CopyTarget::ProfileRoot, PRIVATE_DIR_MODE)
                },
            },
            (CopyPhase::RestrictingRoot, CopyEvent::Completed(r)) => match r {
                Err(cause) => CopyAction::Finish(
                    Err(
                        AccountsError::CannotRestrictDir {
                            path: self.ctx.root_display.clone(),
                            cause,
                        },
                    ),
                ),
                Ok(_) => {
                    self.phase = CopyPhase::CreatingParent;
                    CopyAction::CreateDir(CopyTarget::Parent)
                },
            },
            (CopyPhase::CreatingParent, CopyEvent::Completed(r)) => match r {
                Err(cause) => CopyAction::Finish(
                    Err(
                        AccountsError::CannotCreateDir {
                            path: self.ctx.parent_display.clone(),
                            cause,
                        },
                    ),
                ),
                Ok(_) => {
                    self.phase = CopyPhase::RestrictingParent;
                    CopyAction::Restrict(CopyTarget::Parent, PRIVATE_DIR_MODE)
                },
            },
            (CopyPhase::RestrictingParent, CopyEvent::Completed(r)) => match r {
                Err(cause) => CopyAction::Finish(
                    Err(
                        AccountsError::CannotRestrictDir {
                            path: self.ctx.parent_display.clone(),
                            cause,
                        },
                    ),
                ),
                Ok(_) => {
                    self.phase = CopyPhase::CheckingExists;
                    CopyAction::CheckDestinationExists
                },
            },
            (CopyPhase::CheckingExists, CopyEvent::Answered(exists)) => {
                self.history = Ghost(CopyHistory { destination_existed: Some(exists), ..h });
                if exists && !self.ctx.overwrite {
                    CopyAction::Finish(
                        Err(AccountsError::ProfileExists { label: self.ctx.exists_label.clone() }),
                    )
                } else {
                    self.phase = CopyPhase::CheckingSymlink;
                    CopyAction::CheckDestinationSymlink
                }
            },
            (CopyPhase::CheckingSymlink, CopyEvent::Answered(is_symlink)) => {
                self.history = Ghost(
                    CopyHistory { destination_was_symlink: Some(is_symlink), ..h },
                );
                if is_symlink {
                    CopyAction::Finish(
                        Err(
                            AccountsError::RefuseReplaceSymlink {
                                path: self.ctx.destination_display.clone(),
                            },
                        ),
                    )
                } else {
                    self.phase = CopyPhase::CreatingTemporary;
                    CopyAction::CreateTemporary
                }
            },
            (CopyPhase::CreatingTemporary, CopyEvent::TemporaryCreated(t)) => match t {
                TempOutcome::Created => {
                    self.phase = CopyPhase::RestrictingTemporary;
                    CopyAction::Restrict(CopyTarget::Temporary, PRIVATE_FILE_MODE)
                },
                TempOutcome::AlreadyExists(cause) => if self.attempts < TEMP_RETRIES {
                    self.attempts = self.attempts + 1;
                    self.phase = CopyPhase::CreatingTemporary;
                    CopyAction::CreateTemporary
                } else {
                    CopyAction::Finish(Err(AccountsError::CannotCreateTemp { cause }))
                },
                TempOutcome::Failed(cause) => CopyAction::Finish(
                    Err(AccountsError::CannotCreateTemp { cause }),
                ),
            },
            (CopyPhase::RestrictingTemporary, CopyEvent::Completed(r)) => match r {
                Err(cause) => CopyAction::Finish(Err(AccountsError::CannotRestrictTemp { cause })),
                Ok(_) => {
                    self.history = Ghost(CopyHistory { temporary_restricted: true, ..h });
                    self.phase = CopyPhase::WritingTemporary;
                    CopyAction::WriteTemporary
                },
            },
            (CopyPhase::WritingTemporary, CopyEvent::Completed(r)) => match r {
                Err(cause) => {
                    self.phase = CopyPhase::CleaningUp(AccountsError::CannotWriteTemp { cause });
                    CopyAction::RemoveTemporary
                },
                Ok(_) => {
                    self.history = Ghost(CopyHistory { temporary_written: true, ..h });
                    self.phase = CopyPhase::Renaming;
                    CopyAction::RenameTemporary
                },
            },
            (CopyPhase::Renaming, CopyEvent::Completed(r)) => match r {
                Err(cause) => {
                    self.phase = CopyPhase::CleaningUp(
                        AccountsError::CannotActivate {
                            path: self.ctx.destination_display.clone(),
                            cause,
                        },
                    );
                    CopyAction::RemoveTemporary
                },
                Ok(_) => {
                    self.history = Ghost(CopyHistory { renamed: true, ..h });
                    self.phase = CopyPhase::RestrictingDestination;
                    CopyAction::Restrict(CopyTarget::Destination, PRIVATE_FILE_MODE)
                },
            },
            (CopyPhase::CleaningUp(err), CopyEvent::Completed(_)) => CopyAction::Finish(Err(err)),
            (CopyPhase::RestrictingDestination, CopyEvent::Completed(r)) => match r {
                Err(cause) => CopyAction::Finish(
                    Err(
                        AccountsError::SavedButUnrestricted {
                            path: self.ctx.destination_display.clone(),
                            cause,
                        },
                    ),
                ),
                Ok(_) => {
                    self.history = Ghost(CopyHistory { destination_restricted: true, ..h });
                    self.phase = CopyPhase::RestrictingParentAfter;
                    CopyAction::Restrict(CopyTarget::Parent, PRIVATE_DIR_MODE)
                },
            },
            (CopyPhase::RestrictingParentAfter, CopyEvent::Completed(r)) => match r {
                Err(cause) => CopyAction::Finish(
                    Err(
                        AccountsError::SavedButUnrestricted {
                            path: self.ctx.parent_display.clone(),
                            cause,
                        },
                    ),
                ),
                Ok(_) => CopyAction::Finish(Ok(())),
            },
            (p, _) => {
                proof {
                    assert(false);
                }
                self.phase = p;
                CopyAction::Finish(Ok(()))
            },
        };
        proof {
            assert(verdict_allowed(m0, e0, verdict));
            assert(copy_next(m0, e0, verdict) == (*self, action));
            lemma_copy_step_keeps_wf(m0, e0, verdict);
        }
        action
    }
}

/// A step keeps `wf`, whatever verdict it was given.
pub proof fn lemma_copy_step_wf(m: CopyMachine, e: CopyEvent, m2: CopyMachine, a: CopyAction)
    requires
        m.wf(),
        accepts_spec(m.phase, e),
        copy_step(m, e, m2, a),
    ensures
        m2.wf(),
        0 <= steps_left_bound(m2) < steps_left_bound(m),
{
    let v = choose|v: Result<(), AccountsError>|
        verdict_allowed(m, e, v) && #[trigger] copy_next(m, e, v) == (m2, a);
    lemma_copy_step_keeps_wf(m, e, v);
    lemma_copy_step_progress(m, e, v);
}

/// The destination is replaced only by renaming the temporary file over
/// it, and only once the source was found to be a regular file holding a
/// JSON object, the destination was absent or overwriting was asked, the
/// destination was not a symlink, and the temporary file was made private
/// and written in full.
pub proof fn lemma_rename_only_after_checks(
    m: CopyMachine,
    e: CopyEvent,
    m2: CopyMachine,
    a: CopyAction,
)
    requires
        m.wf(),
        accepts_spec(m.phase, e),
        copy_step(m, e, m2, a),
        a is RenameTemporary,
    ensures
        m.phase is WritingTemporary,
        e matches CopyEvent::Completed(Ok(_)),
        is_auth_document(m2.data@),
        m2.history@.destination_existed matches Some(existed) && (!existed || m.ctx.overwrite),
        m2.history@.destination_was_symlink == Some(false),
        m2.history@.temporary_restricted,
        m2.history@.temporary_written,
{
    lemma_copy_step_wf(m, e, m2, a);
}

/// What is written to the temporary file is exactly what was read from the
/// source, once it was accepted, and only after the temporary file was made
/// private and the destination checks passed.
pub proof fn lemma_write_is_source_bytes(
    m: CopyMachine,
    e: CopyEvent,
    m2: CopyMachine,
    a: CopyAction,
)
    requires
        m.wf(),
        accepts_spec(m.phase, e),
        copy_step(m, e, m2, a),
        a is WriteTemporary,
    ensures
        m2.data == m.data,
        is_auth_document(m2.data@),
        m2.history@.temporary_restricted,
        m2.history@.destination_existed matches Some(existed) && (!existed || m.ctx.overwrite),
        m2.history@.destination_was_symlink == Some(false),
{
    lemma_copy_step_wf(m, e, m2, a);
}

/// The bytes kept are the bytes read from the source, and they never
/// change afterwards.
pub proof fn lemma_data_is_what_was_read(
    m: CopyMachine,
    e: CopyEvent,
    m2: CopyMachine,
    a: CopyAction,
)
    requires
        m.wf(),
        accepts_spec(m.phase, e),
        copy_step(m, e, m2, a),
    ensures
        source_accepted(m.phase) ==> m2.data == m.data,
        m.phase is ReadingSource && source_accepted(m2.phase) ==> (e matches CopyEvent::Read(
            Ok(bytes),
        ) && m2.data == bytes),
{
}

/// A copy ends well only after the temporary file replaced the destination
/// and both the destination and its directory were made private.
pub proof fn lemma_success_only_when_done(
    m: CopyMachine,
    e: CopyEvent,
    m2: CopyMachine,
    a: CopyAction,
)
    requires
        m.wf(),
        accepts_spec(m.phase, e),
        copy_step(m, e, m2, a),
        a == CopyAction::Finish(Ok(())),
    ensures
        m.phase is RestrictingParentAfter,
        e matches CopyEvent::Completed(Ok(_)),
        m.history@.renamed,
        m.history@.destination_restricted,
        m.history@.temporary_written,
{
}

/// An existing destination is never replaced unless overwriting was asked:
/// the copy ends with "already exists".
pub proof fn lemma_existing_destination_kept(
    m: CopyMachine,
    m2: CopyMachine,
    a: CopyAction,
)
    requires
        m.wf(),
        m.phase is CheckingExists,
        !m.ctx.overwrite,
        copy_step(m, CopyEvent::Answered(true), m2, a),
    ensures
        a == CopyAction::Finish(Err(AccountsError::ProfileExists { label: m.ctx.exists_label })),
        m2.phase is Finished,
{
}

/// Once the temporary file has been written to, a failure to write it or
/// to rename it makes the copy remove it before it reports the failure.
pub proof fn lemma_temporary_removed_on_failure(
    m: CopyMachine,
    e: CopyEvent,
    m2: CopyMachine,
    a: CopyAction,
)
    requires
        m.wf(),
        accepts_spec(m.phase, e),
        copy_step(m, e, m2, a),
    ensures
        (m.phase is WritingTemporary || m.phase is Renaming) && (e matches CopyEvent::Completed(
            Err(_),
        )) ==> a is RemoveTemporary && m2.phase is CleaningUp,
        m.phase matches CopyPhase::CleaningUp(err) ==> a == CopyAction::Finish(Err(err)),
{
}

/// The profile root is created and restricted only when the destination's
/// grandparent is the profile root; directories are made private to their
/// owner (0o700) and files readable and writable by their owner only
/// (0o600).
pub proof fn lemma_restricted_paths(m: CopyMachine, e: CopyEvent, m2: CopyMachine, a: CopyAction)
    requires
        m.wf(),
        accepts_spec(m.phase, e),
        copy_step(m, e, m2, a),
    ensures
        a == CopyAction::CreateDir(CopyTarget::ProfileRoot) ==> m.ctx.root_is_profile_dir,
        a matches CopyAction::Restrict(CopyTarget::ProfileRoot, _) ==> m.ctx.root_is_profile_dir,
        a matches CopyAction::Restrict(t, mode) ==> (mode == PRIVATE_DIR_MODE <==> (t
            is ProfileRoot || t is Parent)) && (mode == PRIVATE_FILE_MODE <==> (t is Temporary
            || t is Destination)),
{
}

/// The source is checked first, in this order, and the first check that
/// fails decides the outcome (`p` is the source as displayed): no entry at
/// the source gives "Authentication file not found: p (...)"; an entry that
/// is not a regular file gives "Authentication path is not a regular file:
/// p"; a failed read gives "Cannot read p: ..."; empty bytes give
/// "Authentication file is empty: p"; bytes that are not JSON give
/// "Authentication file is not valid JSON: p (...)" with serde_json's
/// message; a JSON value other than an object gives "Authentication file
/// must contain a JSON object: p". A source that passes every check is
/// kept and the copy goes on.
pub proof fn lemma_source_checks_in_order(
    m: CopyMachine,
    e: CopyEvent,
    m2: CopyMachine,
    a: CopyAction,
)
    requires
        m.wf(),
        accepts_spec(m.phase, e),
        copy_step(m, e, m2, a),
    ensures
        m.phase is InspectingSource ==> match e {
            CopyEvent::Inspected(Err(cause)) => a == CopyAction::Finish(
                Err(AccountsError::AuthNotFound { path: m.ctx.source_display, cause }),
            ) && has_prefix(
                error_text(AccountsError::AuthNotFound { path: m.ctx.source_display, cause }),
                "Authentication file not found: "@ + m.ctx.source_display@ + " ("@,
            ),
            CopyEvent::Inspected(Ok(kind)) => if kind == EntryKind::File {
                a is ReadSource
            } else {
                a == CopyAction::Finish(
                    Err(AccountsError::AuthNotRegularFile { path: m.ctx.source_display }),
                )
            },
            _ => false,
        },
        m.phase is ReadingSource ==> match e {
            CopyEvent::Read(Err(cause)) => a == CopyAction::Finish(
                Err(AccountsError::CannotRead { path: m.ctx.source_display, cause }),
            ),
            CopyEvent::Read(Ok(bytes)) => {
                &&& bytes@.len() == 0 ==> a == CopyAction::Finish(
                    Err(AccountsError::AuthEmpty { path: m.ctx.source_display }),
                )
                &&& bytes@.len() > 0 && json_document_is_object(bytes@) is None ==> (a matches CopyAction::Finish(
                    Err(err),
                ) && (err matches AccountsError::AuthInvalidJson { path: p, cause: c } && p
                    == m.ctx.source_display && c@ == json_error_message(bytes@)) && has_prefix(
                    error_text(err),
                    "Authentication file is not valid JSON: "@ + m.ctx.source_display@ + " ("@,
                ))
                &&& bytes@.len() > 0 && json_document_is_object(bytes@) == Some(false) ==> a
                    == CopyAction::Finish(
                    Err(AccountsError::AuthNotObject { path: m.ctx.source_display }),
                )
                &&& is_auth_document(bytes@) ==> m2.data == bytes && (a is CreateDir || a
                    == CopyAction::Finish(Err(AccountsError::NoParentDirectory)))
            },
            _ => false,
        },
{
    let path = m.ctx.source_display@;
    if let CopyEvent::Inspected(Err(cause)) = e {
        let head = "Authentication file not found: "@ + path + " ("@;
        assert((head + cause@ + ")"@).take(head.len() as int) =~= head);
    }
    if let CopyEvent::Read(Ok(bytes)) = e {
        if m.phase is ReadingSource && bytes@.len() > 0 && json_document_is_object(bytes@) is None {
            let v = choose|v: Result<(), AccountsError>|
                verdict_allowed(m, e, v) && #[trigger] copy_next(m, e, v) == (m2, a);
            if let Err(AccountsError::AuthInvalidJson { path: p, cause: c }) = v {
                let head = "Authentication file is not valid JSON: "@ + path + " ("@;
                assert((head + c@ + ")"@).take(head.len() as int) =~= head);
            }
        }
    }
}

/// A copy that fails leaves the destination as it was, unless the failure
/// came after the temporary file, fully written with the source's bytes,
/// replaced it; then the only failures left are the two "Profile was saved,
/// but permissions could not be restricted" ones.
pub proof fn lemma_failure_leaves_destination_or_saved(
    m: CopyMachine,
    e: CopyEvent,
    m2: CopyMachine,
    a: CopyAction,
)
    requires
        m.wf(),
        accepts_spec(m.phase, e),
        copy_step(m, e, m2, a),
        a matches CopyAction::Finish(Err(_)),
    ensures
        !m.history@.renamed ==> !m2.history@.renamed && !(a matches CopyAction::Finish(
            Err(AccountsError::SavedButUnrestricted { .. }),
        )),
        m.history@.renamed ==> (a matches CopyAction::Finish(
            Err(AccountsError::SavedButUnrestricted { .. }),
        )) && m.history@.temporary_written && is_auth_document(m.data@),
{
    lemma_copy_step_wf(m, e, m2, a);
}

/// Making a directory private: the directory (the profile root, then the
/// destination's parent) is created with its missing parents and then set
/// to 0o700; a failure to create it gives "Cannot create D: ...", a failure
/// to set its mode gives "Cannot restrict permissions on D: ...", and
/// either ends the copy.
pub proof fn lemma_private_dir_steps(m: CopyMachine, e: CopyEvent, m2: CopyMachine, a: CopyAction)
    requires
        m.wf(),
        accepts_spec(m.phase, e),
        copy_step(m, e, m2, a),
    ensures
        m.phase is CreatingRoot ==> match e {
            CopyEvent::Completed(Ok(_)) => a == CopyAction::Restrict(
                CopyTarget::ProfileRoot,
                PRIVATE_DIR_MODE,
            ),
            CopyEvent::Completed(Err(cause)) => a == CopyAction::Finish(
                Err(AccountsError::CannotCreateDir { path: m.ctx.root_display, cause }),
            ),
            _ => false,
        },
        m.phase is RestrictingRoot ==> match e {
            CopyEvent::Completed(Ok(_)) => a == CopyAction::CreateDir(CopyTarget::Parent),
            CopyEvent::Completed(Err(cause)) => a == CopyAction::Finish(
                Err(AccountsError::CannotRestrictDir { path: m.ctx.root_display, cause }),
            ),
            _ => false,
        },
        m.phase is CreatingParent ==> match e {
            CopyEvent::Completed(Ok(_)) => a == CopyAction::Restrict(
                CopyTarget::Parent,
                PRIVATE_DIR_MODE,
            ),
            CopyEvent::Completed(Err(cause)) => a == CopyAction::Finish(
                Err(AccountsError::CannotCreateDir { path: m.ctx.parent_display, cause }),
            ),
            _ => false,
        },
        m.phase is RestrictingParent ==> match e {
            CopyEvent::Completed(Ok(_)) => a is CheckDestinationExists,
            CopyEvent::Completed(Err(cause)) => a == CopyAction::Finish(
                Err(AccountsError::CannotRestrictDir { path: m.ctx.parent_display, cause }),
            ),
            _ => false,
        },
{
}

/// The answers of a copy in which every file operation succeeds: the source
/// is a regular file holding `source`, the destination exists exactly when
/// `present` says so and is not a symlink, and every directory, permission,
/// write and rename succeeds.
pub open spec fn smooth_answer(phase: CopyPhase, source: Vec<u8>, present: bool) -> CopyEvent {
    match phase {
        CopyPhase::InspectingSource => CopyEvent::Inspected(Ok(EntryKind::File)),
        CopyPhase::ReadingSource => CopyEvent::Read(Ok(source)),
        CopyPhase::CheckingExists => CopyEvent::Answered(present),
        CopyPhase::CheckingSymlink => CopyEvent::Answered(false),
        CopyPhase::CreatingTemporary => CopyEvent::TemporaryCreated(TempOutcome::Created),
        _ => CopyEvent::Completed(Ok(())),
    }
}

/// The state and last action after at most `n` steps of a copy that gets
/// the answers of `smooth_answer`, stopping at the first `Finish`.
pub open spec fn smooth_run(m: CopyMachine, source: Vec<u8>, present: bool, n: nat) -> (
    CopyMachine,
    CopyAction,
)
    decreases n,
{
    let next = copy_next(m, smooth_answer(m.phase, source, present), Ok(()));
    if n <= 1 || next.1 is Finish {
        next
    } else {
        smooth_run(next.0, source, present, (n - 1) as nat)
    }
}

/// An absent destination is never refused: told that the destination does
/// not exist, the copy goes on to check for a symlink, whether or not
/// overwriting was asked and wherever the destination lies; so does an
/// existing destination when overwriting was asked.
pub proof fn lemma_absent_destination_not_refused(
    m: CopyMachine,
    present: bool,
    m2: CopyMachine,
    a: CopyAction,
)
    requires
        m.wf(),
        m.phase is CheckingExists,
        !present || m.ctx.overwrite,
        copy_step(m, CopyEvent::Answered(present), m2, a),
    ensures
        a is CheckDestinationSymlink,
        m2.phase is CheckingSymlink,
        m2.history@.destination_existed == Some(present),
{
    let e = CopyEvent::Answered(present);
    let v = choose|v: Result<(), AccountsError>|
        verdict_allowed(m, e, v) && #[trigger] copy_next(m, e, v) == (m2, a);
    assert(copy_next(m, e, v) == (m2, a));
}

/// With answers in which every file operation succeeds, each step of the
/// copy is the one that `smooth_run` takes: when the source's bytes hold a
/// JSON object, checking them can only pass.
pub proof fn lemma_smooth_step_is_determined(
    m: CopyMachine,
    source: Vec<u8>,
    present: bool,
    m2: CopyMachine,
    a: CopyAction,
)
    requires
        m.wf(),
        is_auth_document(source@),
        copy_step(m, smooth_answer(m.phase, source, present), m2, a),
    ensures
        (m2, a) == copy_next(m, smooth_answer(m.phase, source, present), Ok(())),
{
    let e = smooth_answer(m.phase, source, present);
    let v = choose|v: Result<(), AccountsError>|
        verdict_allowed(m, e, v) && #[trigger] copy_next(m, e, v) == (m2, a);
    assert(copy_next(m, e, v) == (m2, a));
    if m.phase is ReadingSource {
        assert(v is Ok);
    }
    assert(copy_next(m, e, v) == copy_next(m, e, Ok(())));
}

/// The states that a copy with answers from `smooth_answer` goes through
/// before it finishes.
pub open spec fn smooth_state(m: CopyMachine, source: Vec<u8>, present: bool) -> bool {
    &&& m.wf()
    &&& !(m.phase is Finished)
    &&& !(m.phase is CleaningUp)
    &&& source_accepted(m.phase) ==> m.data == source
    &&& m.ctx.has_parent
    &&& !present || m.ctx.overwrite
    &&& is_auth_document(source@)
}

proof fn lemma_smooth_step(m: CopyMachine, source: Vec<u8>, present: bool)
    requires
        smooth_state(m, source, present),
    ensures
        ({
            let next = copy_next(m, smooth_answer(m.phase, source, present), Ok(()));
            if m.phase is RestrictingParentAfter {
                &&& next.1 == CopyAction::Finish(Ok(()))
                &&& next.0.phase is Finished
                &&& next.0.data == source
                &&& next.0.history@.renamed
            } else {
                &&& !(next.1 is Finish)
                &&& smooth_state(next.0, source, present)
                &&& phase_rank(next.0.phase) > phase_rank(m.phase)
            }
        }),
{
    let e = smooth_answer(m.phase, source, present);
    assert(accepts_spec(m.phase, e));
    assert(verdict_allowed(m, e, Ok(())));
    lemma_copy_step_keeps_wf(m, e, Ok(()));
}

proof fn lemma_smooth_run_from(m: CopyMachine, source: Vec<u8>, present: bool, n: nat)
    requires
        smooth_state(m, source, present),
        n >= 14 - phase_rank(m.phase),
    ensures
        smooth_run(m, source, present, n).1 == CopyAction::Finish(Ok(())),
        smooth_run(m, source, present, n).0.phase is Finished,
        smooth_run(m, source, present, n).0.data == source,
        smooth_run(m, source, present, n).0.history@.renamed,
    decreases n,
{
    lemma_smooth_step(m, source, present);
    let next = copy_next(m, smooth_answer(m.phase, source, present), Ok(()));
    if !(m.phase is RestrictingParentAfter) {
        assert(phase_rank(m.phase) <= 12);
        lemma_smooth_run_from(next.0, source, present, (n - 1) as nat);
    }
}

/// A copy whose source is a regular file holding a JSON object, whose
/// destination is absent (or replaceable because overwriting was asked)
/// and not a symlink, and whose every file operation succeeds, ends well:
/// after at most 14 answers it finishes with `Ok`, the destination replaced
/// by the source's bytes.
pub proof fn lemma_smooth_copy_succeeds(m: CopyMachine, source: Vec<u8>, present: bool)
    requires
        m.wf(),
        m.phase is InspectingSource,
        m.ctx.has_parent,
        is_auth_document(source@),
        !present || m.ctx.overwrite,
    ensures
        smooth_run(m, source, present, 14).1 == CopyAction::Finish(Ok(())),
        smooth_run(m, source, present, 14).0.phase is Finished,
        smooth_run(m, source, present, 14).0.data == source,
        smooth_run(m, source, present, 14).0.history@.renamed,
{
    lemma_smooth_run_from(m, source, present, 14);
}

/// A destination that is a symlink is never replaced: told that it is one,
/// the copy ends with "Refusing to replace symlink" and writes nothing;
/// told that it is not, the copy goes on to create the temporary file.
pub proof fn lemma_symlink_destination_refused(
    m: CopyMachine,
    is_symlink: bool,
    m2: CopyMachine,
    a: CopyAction,
)
    requires
        m.wf(),
        m.phase is CheckingSymlink,
        copy_step(m, CopyEvent::Answered(is_symlink), m2, a),
    ensures
        is_symlink ==> a == CopyAction::Finish(
            Err(AccountsError::RefuseReplaceSymlink { path: m.ctx.destination_display }),
        ) && m2.phase is Finished && !m2.history@.renamed,
        !is_symlink ==> a is CreateTemporary && m2.phase is CreatingTemporary,
{
    let e = CopyEvent::Answered(is_symlink);
    let v = choose|v: Result<(), AccountsError>|
        verdict_allowed(m, e, v) && #[trigger] copy_next(m, e, v) == (m2, a);
    assert(copy_next(m, e, v) == (m2, a));
}

/// A clash of temporary file names is retried with a fresh name, at most
/// ten times in a row; the eleventh clash, or any other failure to create
/// the file, ends the copy with "Cannot create temporary auth file".
pub proof fn lemma_temporary_clash_retried(
    m: CopyMachine,
    outcome: TempOutcome,
    m2: CopyMachine,
    a: CopyAction,
)
    requires
        m.wf(),
        m.phase is CreatingTemporary,
        copy_step(m, CopyEvent::TemporaryCreated(outcome), m2, a),
    ensures
        outcome is Created ==> a == CopyAction::Restrict(CopyTarget::Temporary, 0o600u32),
        outcome matches TempOutcome::AlreadyExists(cause) ==> if m.attempts < 10 {
            a is CreateTemporary && m2.phase is CreatingTemporary && m2.attempts == m.attempts + 1
        } else {
            a == CopyAction::Finish(Err(AccountsError::CannotCreateTemp { cause }))
        },
        outcome matches TempOutcome::Failed(cause) ==> a == CopyAction::Finish(
            Err(AccountsError::CannotCreateTemp { cause }),
        ),
{
    let e = CopyEvent::TemporaryCreated(outcome);
    let v = choose|v: Result<(), AccountsError>|
        verdict_allowed(m, e, v) && #[trigger] copy_next(m, e, v) == (m2, a);
    assert(copy_next(m, e, v) == (m2, a));
}

} // verus!
