//! The sync settings that the command line selects, and the checks on them.

use vstd::prelude::*;
use crate::text::{decimal, push_decimal, push_str};

verus! {

/// How a sync conflict is resolved, as the command line names it.
#[derive(Debug, Clone, Copy, PartialEq, Eq, Structural)]
pub enum ConflictStrategyArg {
    /// Keep both local and remote versions.
    KeepBoth,
    /// Prefer the local version.
    PreferLocal,
    /// Prefer the remote version.
    PreferRemote,
}

/// How the sync engine resolves a conflict.
#[derive(Debug, Clone, Copy, PartialEq, Eq, Structural)]
pub enum ConflictStrategy {
    /// Keep both local and remote versions.
    KeepBoth,
    /// Prefer the local version.
    PreferLocal,
    /// Prefer the remote version.
    PreferRemote,
}

/// The sync engine's strategy for a command-line choice.
pub fn conflict_strategy_from(arg: ConflictStrategyArg) -> (s: ConflictStrategy)
    ensures
        s == match arg {
            ConflictStrategyArg::KeepBoth => ConflictStrategy::KeepBoth,
            ConflictStrategyArg::PreferLocal => ConflictStrategy::PreferLocal,
            ConflictStrategyArg::PreferRemote => ConflictStrategy::PreferRemote,
        },
{
    match arg {
        ConflictStrategyArg::KeepBoth => ConflictStrategy::KeepBoth,
        ConflictStrategyArg::PreferLocal => ConflictStrategy::PreferLocal,
        ConflictStrategyArg::PreferRemote => ConflictStrategy::PreferRemote,
    }
}

/// When the vault is synchronised, as the command line names it.
#[derive(Debug, Clone, Copy, PartialEq, Eq, Structural)]
pub enum SyncModeArg {
    /// Only when explicitly triggered.
    Manual,
    /// On file changes.
    OnDemand,
    /// At a fixed interval.
    Periodic,
    /// On file changes and at a fixed interval.
    Hybrid,
}

/// When the sync engine runs; intervals are in seconds.
#[derive(Debug, Clone, Copy, PartialEq, Eq, Structural)]
pub enum SyncMode {
    /// Only when explicitly triggered.
    Manual,
    /// On file changes.
    OnDemand,
    /// Every `interval_secs` seconds.
    Periodic { interval_secs: u64 },
    /// On file changes and every `interval_secs` seconds.
    Hybrid { interval_secs: u64 },
}

/// Why an interval was refused for a mode that needs one.
#[derive(Debug, Clone, PartialEq, Eq)]
pub enum IntervalError {
    /// No interval was given for the named mode.
    Missing(String),
    /// The interval given for the named mode is zero.
    Zero(String),
}

/// The text of an [`IntervalError`].
pub open spec fn interval_error_text(e: IntervalError) -> Seq<char> {
    match e {
        IntervalError::Missing(m) => "Interval required for "@ + m@ + " mode"@,
        IntervalError::Zero(m) => "Interval must be greater than 0 seconds for "@ + m@ + " mode"@,
    }
}

impl IntervalError {
    /// The message of this error.
    pub fn message(&self) -> (s: String)
        ensures
            s@ == interval_error_text(*self),
    {
        match self {
            IntervalError::Missing(m) => {
                let mut s = String::from_str("Interval required for ");
                push_str(&mut s, m.as_str());
                push_str(&mut s, " mode");
                s
            },
            IntervalError::Zero(m) => {
                let mut s = String::from_str("Interval must be greater than 0 seconds for ");
                push_str(&mut s, m.as_str());
                push_str(&mut s, " mode");
                s
            },
        }
    }
}

/// The interval, which must be given and positive, for the mode named `mode`.
pub fn require_positive_interval(interval: Option<u64>, mode: &str) -> (r: Result<u64, IntervalError>)
    ensures
        match interval {
            None => r matches Err(IntervalError::Missing(m)) && m@ == mode@,
            Some(secs) => if secs == 0 {
                r matches Err(IntervalError::Zero(m)) && m@ == mode@
            } else {
                r == Ok::<u64, IntervalError>(secs)
            },
        },
{
    match interval {
        None => Err(IntervalError::Missing(String::from_str(mode))),
        Some(secs) => if secs == 0 {
            Err(IntervalError::Zero(String::from_str(mode)))
        } else {
            Ok(secs)
        },
    }
}

/// The sync mode that a command-line choice and interval select: periodic
/// and hybrid modes need a positive interval, the others ignore it.
pub fn sync_mode_from(arg: SyncModeArg, interval: Option<u64>) -> (r: Result<SyncMode, IntervalError>)
    ensures
        match arg {
            SyncModeArg::Manual => r == Ok::<SyncMode, IntervalError>(SyncMode::Manual),
            SyncModeArg::OnDemand => r == Ok::<SyncMode, IntervalError>(SyncMode::OnDemand),
            SyncModeArg::Periodic => match interval {
                Some(secs) if secs > 0 => r == Ok::<SyncMode, IntervalError>(
                    SyncMode::Periodic { interval_secs: secs },
                ),
                Some(_) => r matches Err(IntervalError::Zero(m)) && m@ == "periodic"@,
                None => r matches Err(IntervalError::Missing(m)) && m@ == "periodic"@,
            },
            SyncModeArg::Hybrid => match interval {
                Some(secs) if secs > 0 => r == Ok::<SyncMode, IntervalError>(
                    SyncMode::Hybrid { interval_secs: secs },
                ),
                Some(_) => r matches Err(IntervalError::Zero(m)) && m@ == "hybrid"@,
                None => r matches Err(IntervalError::Missing(m)) && m@ == "hybrid"@,
            },
        },
{
    match arg {
        SyncModeArg::Manual => Ok(SyncMode::Manual),
        SyncModeArg::OnDemand => Ok(SyncMode::OnDemand),
        SyncModeArg::Periodic => {
            let secs = require_positive_interval(interval, "periodic")?;
            Ok(SyncMode::Periodic { interval_secs: secs })
        },
        SyncModeArg::Hybrid => {
            let secs = require_positive_interval(interval, "hybrid")?;
            Ok(SyncMode::Hybrid { interval_secs: secs })
        },
    }
}

/// How a sync mode is described once it is saved; intervals are written as
/// a `Duration` of whole seconds is.
pub open spec fn sync_mode_text(mode: SyncMode) -> Seq<char> {
    match mode {
        SyncMode::Manual => "Manual"@,
        SyncMode::OnDemand => "On-demand"@,
        SyncMode::Periodic { interval_secs } => "Periodic (every "@ + decimal(interval_secs as nat)
            + "s)"@,
        SyncMode::Hybrid { interval_secs } => "Hybrid (every "@ + decimal(interval_secs as nat)
            + "s)"@,
    }
}

/// The description of a saved sync mode.
pub fn describe_sync_mode(mode: SyncMode) -> (s: String)
    ensures
        s@ == sync_mode_text(mode),
{
    match mode {
        SyncMode::Manual => String::from_str("Manual"),
        SyncMode::OnDemand => String::from_str("On-demand"),
        SyncMode::Periodic { interval_secs } => {
            let mut s = String::from_str("Periodic (every ");
            push_decimal(&mut s, interval_secs as u128);
            push_str(&mut s, "s)");
            s
        },
        SyncMode::Hybrid { interval_secs } => {
            let mut s = String::from_str("Hybrid (every ");
            push_decimal(&mut s, interval_secs as u128);
            push_str(&mut s, "s)");
            s
        },
    }
}

/// Where a tracked file stands in synchronisation.
#[derive(Debug, Clone, Copy, PartialEq, Eq, Structural)]
pub enum SyncStatusKind {
    /// Local and remote agree.
    Synced,
    /// Changed locally.
    LocalModified,
    /// Changed remotely.
    RemoteModified,
    /// Changed on both sides.
    Conflicted,
    /// Being synchronised.
    Syncing,
    /// The last attempt failed.
    Failed,
}

/// How `sync status` names a file status.
pub open spec fn sync_status_text(s: SyncStatusKind) -> Seq<char> {
    match s {
        SyncStatusKind::Synced => "Synced"@,
        SyncStatusKind::LocalModified => "Local modified"@,
        SyncStatusKind::RemoteModified => "Remote modified"@,
        SyncStatusKind::Conflicted => "Conflicted"@,
        SyncStatusKind::Syncing => "Syncing"@,
        SyncStatusKind::Failed => "Failed"@,
    }
}

/// How `sync status` names a file status.
pub fn sync_status_label(s: SyncStatusKind) -> (t: &'static str)
    ensures
        t@ == sync_status_text(s),
{
    match s {
        SyncStatusKind::Synced => "Synced",
        SyncStatusKind::LocalModified => "Local modified",
        SyncStatusKind::RemoteModified => "Remote modified",
        SyncStatusKind::Conflicted => "Conflicted",
        SyncStatusKind::Syncing => "Syncing",
        SyncStatusKind::Failed => "Failed",
    }
}

} // verus!
