//! Publishing a sensitive file (such as OAuth tokens) privately and without
//! replacing anything: the decisions of the procedure, as a state machine
//! whose caller performs each filesystem step and reports its outcome.
//!
//! The procedure: refuse when the destination exists (even as a dangling
//! link); read a random nonce; create a new owner-only temporary file next
//! to the destination, under a fresh name (up to 128 names are tried);
//! write and sync it; check that it is owner-only; hard-link it into place
//! (which itself refuses to replace anything); remove the temporary name;
//! sync the folder. Once the temporary file exists, every failure removes
//! it before the error is returned.

use vstd::prelude::*;
use crate::text::{decimal, octal, push_decimal, push_octal, push_str};

verus! {

/// How many temporary names are tried before giving up.
pub const TEMPORARY_NAME_ATTEMPTS: u32 = 128;

/// Why a publication failed.
#[derive(Debug, Clone, Copy, PartialEq, Eq, Structural)]
pub enum PublishFailure {
    /// The destination path has no file name.
    NoFileName,
    /// Something already exists at the destination.
    DestinationExists,
    /// Every temporary name tried was taken.
    NoTemporaryName,
    /// The temporary file is not owner-only; its permission bits.
    Permissions { mode: u32 },
    /// The filesystem step that was last performed failed; its error is the
    /// result.
    Io,
}

/// The class of error that a [`PublishFailure`] other than `Io` is reported as.
#[derive(Debug, Clone, Copy, PartialEq, Eq, Structural)]
pub enum FailureKind {
    /// The input is unusable.
    InvalidInput,
    /// Something is in the way.
    AlreadyExists,
    /// Permissions are wrong.
    PermissionDenied,
}

/// The class and text of a failure other than `Io`.
pub open spec fn failure_report(f: PublishFailure) -> Option<(FailureKind, Seq<char>)> {
    match f {
        PublishFailure::NoFileName => Some((FailureKind::InvalidInput, "destination has no file name"@)),
        PublishFailure::DestinationExists => Some((FailureKind::AlreadyExists, "destination already exists"@)),
        PublishFailure::NoTemporaryName => Some((FailureKind::AlreadyExists, "could not allocate a private temporary file"@)),
        PublishFailure::Permissions { mode } => Some((
            FailureKind::PermissionDenied,
            "temporary file permissions are "@ + octal(mode as nat) + ", expected 600"@,
        )),
        PublishFailure::Io => None,
    }
}

impl PublishFailure {
    /// The class and message of this failure, or `None` for `Io`.
    pub fn report(&self) -> (r: Option<(FailureKind, String)>)
        ensures
            match failure_report(*self) {
                Some((k, t)) => r matches Some((kk, s)) && kk == k && s@ == t,
                None => r is None,
            },
    {
        match self {
            PublishFailure::NoFileName => Some(
                (FailureKind::InvalidInput, String::from_str("destination has no file name")),
            ),
            PublishFailure::DestinationExists => Some(
                (FailureKind::AlreadyExists, String::from_str("destination already exists")),
            ),
            PublishFailure::NoTemporaryName => Some(
                (
                    FailureKind::AlreadyExists,
                    String::from_str("could not allocate a private temporary file"),
                ),
            ),
            PublishFailure::Permissions { mode } => {
                let mut s = String::from_str("temporary file permissions are ");
                push_octal(&mut s, *mode);
                push_str(&mut s, ", expected 600");
                Some((FailureKind::PermissionDenied, s))
            },
            PublishFailure::Io => None,
        }
    }
}

/// Where a publication stands.
#[derive(Debug, Clone, Copy, PartialEq, Eq, Structural)]
pub enum PublishState {
    /// Checking whether the destination exists.
    CheckingDestination,
    /// Reading the random nonce for temporary names.
    ReadingNonce,
    /// Creating the temporary file under the name for `attempt`.
    CreatingTemporary { nonce: u128, attempt: u32 },
    /// Writing the contents to the temporary file.
    Writing,
    /// Syncing the temporary file.
    SyncingFile,
    /// Reading the temporary file's permissions.
    CheckingMode,
    /// Hard-linking the temporary file to the destination.
    Linking,
    /// Removing the temporary name.
    RemovingTemporary,
    /// Syncing the destination folder.
    SyncingParent,
    /// Removing the temporary file after `failure`.
    Discarding { failure: PublishFailure },
    /// Done.
    Finished,
}

/// The filesystem step that the caller performs next, or the result.
#[derive(Debug, Clone, Copy, PartialEq, Eq, Structural)]
pub enum PublishAction {
    /// Report whether anything (even a dangling link) is at the destination.
    CheckDestination,
    /// Read 16 random bytes as the nonce.
    ReadNonce,
    /// Create, new and owner-only, the temporary file named by
    /// [`temporary_file_name`] for this nonce and attempt.
    CreateTemporary { nonce: u128, attempt: u32 },
    /// Write all contents to the temporary file.
    WriteContents,
    /// Sync the temporary file.
    SyncFile,
    /// Report the temporary file's permission bits.
    ReadMode,
    /// Close the temporary file and hard-link it to the destination.
    LinkIntoPlace,
    /// Remove the temporary name.
    RemoveTemporary,
    /// Sync the destination folder.
    SyncParent,
    /// Remove the temporary file, whatever comes of it.
    DiscardTemporary,
    /// The publication is over: the file is in place.
    Succeed,
    /// The publication is over: it failed.
    Fail(PublishFailure),
}

/// What the caller reports after performing a step.
#[derive(Debug, Clone, Copy, PartialEq, Eq, Structural)]
pub enum PublishEvent {
    /// Whether anything is at the destination.
    DestinationChecked { exists: bool },
    /// The random nonce.
    NonceRead { nonce: u128 },
    /// The temporary file name is already taken.
    NameTaken,
    /// The temporary file's permission bits.
    ModeRead { mode: u32 },
    /// The step succeeded.
    Succeeded,
    /// The step failed with an error that the caller keeps.
    Failed,
}

/// The states in which the temporary file exists.
pub open spec fn holds_temporary(s: PublishState) -> bool {
    ||| s is Writing
    ||| s is SyncingFile
    ||| s is CheckingMode
    ||| s is Linking
    ||| s is RemovingTemporary
    ||| s is SyncingParent
}

/// The result of a step that fails once the temporary file exists.
pub open spec fn discard() -> (PublishState, PublishAction) {
    (PublishState::Discarding { failure: PublishFailure::Io }, PublishAction::DiscardTemporary)
}

/// The next state and action after `event` in state `s`.
pub open spec fn publish_next(s: PublishState, event: PublishEvent) -> (PublishState, PublishAction) {
    match s {
        PublishState::CheckingDestination => match event {
            PublishEvent::DestinationChecked { exists } => if exists {
                (
                    PublishState::Finished,
                    PublishAction::Fail(PublishFailure::DestinationExists),
                )
            } else {
                (PublishState::ReadingNonce, PublishAction::ReadNonce)
            },
            _ => (PublishState::Finished, PublishAction::Fail(PublishFailure::Io)),
        },
        PublishState::ReadingNonce => match event {
            PublishEvent::NonceRead { nonce } => (
                PublishState::CreatingTemporary { nonce, attempt: 0 },
                PublishAction::CreateTemporary { nonce, attempt: 0 },
            ),
            _ => (PublishState::Finished, PublishAction::Fail(PublishFailure::Io)),
        },
        PublishState::CreatingTemporary { nonce, attempt } => match event {
            PublishEvent::Succeeded => (PublishState::Writing, PublishAction::WriteContents),
            PublishEvent::NameTaken => if attempt + 1 < TEMPORARY_NAME_ATTEMPTS {
                (
                    PublishState::CreatingTemporary { nonce, attempt: (attempt + 1) as u32 },
                    PublishAction::CreateTemporary { nonce, attempt: (attempt + 1) as u32 },
                )
            } else {
                (
                    PublishState::Finished,
                    PublishAction::Fail(PublishFailure::NoTemporaryName),
                )
            },
            _ => (PublishState::Finished, PublishAction::Fail(PublishFailure::Io)),
        },
        PublishState::Writing => match event {
            PublishEvent::Succeeded => (PublishState::SyncingFile, PublishAction::SyncFile),
            _ => discard(),
        },
        PublishState::SyncingFile => match event {
            PublishEvent::Succeeded => (PublishState::CheckingMode, PublishAction::ReadMode),
            _ => discard(),
        },
        PublishState::CheckingMode => match event {
            PublishEvent::ModeRead { mode } => if mode & 0o777 == 0o600 {
                (PublishState::Linking, PublishAction::LinkIntoPlace)
            } else {
                (
                    PublishState::Discarding {
                        failure: PublishFailure::Permissions { mode: mode & 0o777 },
                    },
                    PublishAction::DiscardTemporary,
                )
            },
            _ => discard(),
        },
        PublishState::Linking => match event {
            PublishEvent::Succeeded => (PublishState::RemovingTemporary, PublishAction::RemoveTemporary),
            _ => discard(),
        },
        PublishState::RemovingTemporary => match event {
            PublishEvent::Succeeded => (PublishState::SyncingParent, PublishAction::SyncParent),
            _ => discard(),
        },
        PublishState::SyncingParent => match event {
            PublishEvent::Succeeded => (PublishState::Finished, PublishAction::Succeed),
            _ => discard(),
        },
        PublishState::Discarding { failure } => (
            PublishState::Finished,
            PublishAction::Fail(failure),
        ),
        PublishState::Finished => (PublishState::Finished, PublishAction::Fail(PublishFailure::Io)),
    }
}

/// A publication in progress.
pub struct Publication {
    state: PublishState,
}

impl View for Publication {
    type V = PublishState;

    closed spec fn view(&self) -> PublishState {
        self.state
    }
}

/// Start publishing a sensitive file whose destination has the file name
/// `file_name` (`None` when the path has none): the first step, or the
/// failure.
pub fn publish_sensitive_file(file_name: Option<&str>) -> (r: (Publication, PublishAction))
    ensures
        match file_name {
            Some(_) => r.0@ == PublishState::CheckingDestination && r.1
                == PublishAction::CheckDestination,
            None => r.0@ == PublishState::Finished && r.1 == PublishAction::Fail(PublishFailure::NoFileName),
        },
{
    match file_name {
        Some(_) => (
            Publication { state: PublishState::CheckingDestination },
            PublishAction::CheckDestination,
        ),
        None => (
            Publication { state: PublishState::Finished },
            PublishAction::Fail(PublishFailure::NoFileName),
        ),
    }
}

impl Publication {
    /// Whether the publication is over.
    pub fn is_finished(&self) -> (r: bool)
        ensures
            r == (self@ is Finished),
    {
        self.state == PublishState::Finished
    }

    /// Report the outcome of the last step; the next step, or the result.
    pub fn advance(&mut self, event: PublishEvent) -> (action: PublishAction)
        requires
            !(old(self)@ is Finished),
        ensures
            (final(self)@, action) == publish_next(old(self)@, event),
    {
        let (next, action) = match self.state {
            PublishState::CheckingDestination => match event {
                PublishEvent::DestinationChecked { exists } => if exists {
                    (
                        PublishState::Finished,
                        PublishAction::Fail(PublishFailure::DestinationExists),
                    )
                } else {
                    (PublishState::ReadingNonce, PublishAction::ReadNonce)
                },
                _ => (PublishState::Finished, PublishAction::Fail(PublishFailure::Io)),
            },
            PublishState::ReadingNonce => match event {
                PublishEvent::NonceRead { nonce } => (
                    PublishState::CreatingTemporary { nonce, attempt: 0 },
                    PublishAction::CreateTemporary { nonce, attempt: 0 },
                ),
                _ => (PublishState::Finished, PublishAction::Fail(PublishFailure::Io)),
            },
            PublishState::CreatingTemporary { nonce, attempt } => match event {
                PublishEvent::Succeeded => (PublishState::Writing, PublishAction::WriteContents),
                PublishEvent::NameTaken => if attempt < TEMPORARY_NAME_ATTEMPTS - 1 {
                    (
                        PublishState::CreatingTemporary { nonce, attempt: attempt + 1 },
                        PublishAction::CreateTemporary { nonce, attempt: attempt + 1 },
                    )
                } else {
                    (
                        PublishState::Finished,
                        PublishAction::Fail(PublishFailure::NoTemporaryName),
                    )
                },
                _ => (PublishState::Finished, PublishAction::Fail(PublishFailure::Io)),
            },
            PublishState::Writing => match event {
                PublishEvent::Succeeded => (PublishState::SyncingFile, PublishAction::SyncFile),
                _ => (
                    PublishState::Discarding { failure: PublishFailure::Io },
                    PublishAction::DiscardTemporary,
                ),
            },
            PublishState::SyncingFile => match event {
                PublishEvent::Succeeded => (PublishState::CheckingMode, PublishAction::ReadMode),
                _ => (
                    PublishState::Discarding { failure: PublishFailure::Io },
                    PublishAction::DiscardTemporary,
                ),
            },
            PublishState::CheckingMode => match event {
                PublishEvent::ModeRead { mode } => if mode & 0o777 == 0o600 {
                    (PublishState::Linking, PublishAction::LinkIntoPlace)
                } else {
                    (
                        PublishState::Discarding {
                            failure: PublishFailure::Permissions { mode: mode & 0o777 },
                        },
                        PublishAction::DiscardTemporary,
                    )
                },
                _ => (
                    PublishState::Discarding { failure: PublishFailure::Io },
                    PublishAction::DiscardTemporary,
                ),
            },
            PublishState::Linking => match event {
                PublishEvent::Succeeded => (
                    PublishState::RemovingTemporary,
                    PublishAction::RemoveTemporary,
                ),
                _ => (
                    PublishState::Discarding { failure: PublishFailure::Io },
                    PublishAction::DiscardTemporary,
                ),
            },
            PublishState::RemovingTemporary => match event {
                PublishEvent::Succeeded => (PublishState::SyncingParent, PublishAction::SyncParent),
                _ => (
                    PublishState::Discarding { failure: PublishFailure::Io },
                    PublishAction::DiscardTemporary,
                ),
            },
            PublishState::SyncingParent => match event {
                PublishEvent::Succeeded => (PublishState::Finished, PublishAction::Succeed),
                _ => (
                    PublishState::Discarding { failure: PublishFailure::Io },
                    PublishAction::DiscardTemporary,
                ),
            },
            PublishState::Discarding { failure } => (
                PublishState::Finished,
                PublishAction::Fail(failure),
            ),
            PublishState::Finished => (
                PublishState::Finished,
                PublishAction::Fail(PublishFailure::Io),
            ),
        };
        self.state = next;
        action
    }
}

/// The name of the temporary file for an attempt: `.` and the destination's
/// file name, then `.axiom-tmp-`, the process id, the nonce and the attempt,
/// separated by `-`.
pub open spec fn temporary_name_text(file_name: Seq<char>, pid: u32, nonce: u128, attempt: u32) -> Seq<
    char,
> {
    "."@ + file_name + ".axiom-tmp-"@ + decimal(pid as nat) + "-"@ + decimal(nonce as nat) + "-"@
        + decimal(attempt as nat)
}

/// The name, within the destination's folder, of the temporary file for an
/// attempt.
pub fn temporary_file_name(file_name: &str, pid: u32, nonce: u128, attempt: u32) -> (name: String)
    ensures
        name@ == temporary_name_text(file_name@, pid, nonce, attempt),
{
    let mut s = String::from_str(".");
    push_str(&mut s, file_name);
    push_str(&mut s, ".axiom-tmp-");
    push_decimal(&mut s, pid as u128);
    push_str(&mut s, "-");
    push_decimal(&mut s, nonce);
    push_str(&mut s, "-");
    push_decimal(&mut s, attempt as u128);
    assert(s@ =~= temporary_name_text(file_name@, pid, nonce, attempt));
    s
}

/// Nothing is linked into place except from a temporary file whose
/// permission bits were just read as owner-only (`600`).
pub proof fn law_link_only_after_owner_only_check(s: PublishState, e: PublishEvent)
    ensures
        publish_next(s, e).1 == PublishAction::LinkIntoPlace ==> (s == PublishState::CheckingMode
            && (e matches PublishEvent::ModeRead { mode } && mode & 0o777 == 0o600)),
{
}

/// Nothing is done after the destination is found to exist but reporting
/// it: an existing path is never replaced.
pub proof fn law_existing_destination_is_left_alone(e: PublishEvent)
    ensures
        e == (PublishEvent::DestinationChecked { exists: true }) ==> publish_next(
            PublishState::CheckingDestination,
            e,
        ) == (
            PublishState::Finished,
            PublishAction::Fail(PublishFailure::DestinationExists),
        ),
{
}

/// Once the temporary file exists, a step that does not succeed leads to its
/// removal, and the publication then fails: no failure leaves it behind.
pub proof fn law_failure_discards_temporary(s: PublishState, e: PublishEvent)
    ensures
        holds_temporary(s) && publish_next(s, e).1 != PublishAction::DiscardTemporary
            ==> publish_next(s, e).0 is Finished ==> s == PublishState::SyncingParent && e
            == PublishEvent::Succeeded,
        holds_temporary(s) && publish_next(s, e).1 == PublishAction::DiscardTemporary ==> (
        publish_next(s, e).0 matches PublishState::Discarding { failure } && forall|e2: PublishEvent|
            publish_next(publish_next(s, e).0, e2).1 == PublishAction::Fail(failure)),
{
}

/// A publication succeeds only once the file is linked into place, its
/// temporary name removed and the folder synced: success is reported only
/// after the folder sync succeeds.
pub proof fn law_success_only_after_parent_sync(s: PublishState, e: PublishEvent)
    ensures
        publish_next(s, e).1 == PublishAction::Succeed ==> s == PublishState::SyncingParent
            && e == PublishEvent::Succeeded,
{
}

/// No more than [`TEMPORARY_NAME_ATTEMPTS`] temporary names are tried.
pub proof fn law_bounded_temporary_attempts(s: PublishState, e: PublishEvent)
    requires
        s matches PublishState::CreatingTemporary { attempt, .. } ==> attempt
            < TEMPORARY_NAME_ATTEMPTS,
    ensures
        publish_next(s, e).1 matches PublishAction::CreateTemporary { attempt, .. } ==> attempt
            < TEMPORARY_NAME_ATTEMPTS,
        publish_next(s, e).0 matches PublishState::CreatingTemporary { attempt, .. } ==> attempt
            < TEMPORARY_NAME_ATTEMPTS,
{
}

} // verus!
