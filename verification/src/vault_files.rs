//! Vault format migration decisions and the listing of vault folders.

use vstd::prelude::*;
use crate::text::{decimal, push_decimal, push_str};

verus! {

/// What the format check says of a vault.
#[derive(Debug, Clone, Copy, PartialEq, Eq, Structural)]
pub enum FormatStatus {
    /// The vault has the current format.
    UpToDate,
    /// The vault's format cannot be read by this software.
    Incompatible,
    /// The vault's format can be migrated to the current one.
    NeedsMigration,
}

/// What `vault migrate` does.
#[derive(Debug, Clone, Copy, PartialEq, Eq, Structural)]
pub enum MigrationPlan {
    /// Report that the vault is current; nothing changes.
    AlreadyCurrent,
    /// Refuse: the format is incompatible.
    RefuseIncompatible,
    /// Refuse: no chain of migrations leads to the current format.
    RefuseNoPath,
    /// Show the migration steps only (a dry run).
    ShowStepsOnly,
    /// Show the migration steps, then run them.
    ShowStepsAndMigrate,
}

/// What `vault migrate` does, given the format check, whether a chain of
/// migrations to the current format exists, and whether it is a dry run.
pub open spec fn migration_plan_of(status: FormatStatus, has_path: bool, dry_run: bool) -> MigrationPlan {
    match status {
        FormatStatus::UpToDate => MigrationPlan::AlreadyCurrent,
        FormatStatus::Incompatible => MigrationPlan::RefuseIncompatible,
        FormatStatus::NeedsMigration => if !has_path {
            MigrationPlan::RefuseNoPath
        } else if dry_run {
            MigrationPlan::ShowStepsOnly
        } else {
            MigrationPlan::ShowStepsAndMigrate
        },
    }
}

/// Decide what `vault migrate` does.
pub fn plan_migration(status: FormatStatus, has_path: bool, dry_run: bool) -> (p: MigrationPlan)
    ensures
        p == migration_plan_of(status, has_path, dry_run),
{
    match status {
        FormatStatus::UpToDate => MigrationPlan::AlreadyCurrent,
        FormatStatus::Incompatible => MigrationPlan::RefuseIncompatible,
        FormatStatus::NeedsMigration => if !has_path {
            MigrationPlan::RefuseNoPath
        } else if dry_run {
            MigrationPlan::ShowStepsOnly
        } else {
            MigrationPlan::ShowStepsAndMigrate
        },
    }
}

/// A dry run never changes the vault, and a current or incompatible vault is
/// never migrated.
pub proof fn law_only_real_runs_migrate(status: FormatStatus, has_path: bool, dry_run: bool)
    ensures
        migration_plan_of(status, has_path, dry_run) == MigrationPlan::ShowStepsAndMigrate ==> (
        !dry_run && has_path && status == FormatStatus::NeedsMigration),
{
}

/// The line that lists one folder entry: folders with a trailing `/`, files
/// with their size in bytes when it is known.
pub open spec fn listing_line_text(name: Seq<char>, is_dir: bool, size: Option<u64>) -> Seq<char> {
    if is_dir {
        "  [DIR]  "@ + name + "/"@
    } else {
        "  [FILE] "@ + name + " ("@ + match size {
            Some(s) => decimal(s as nat) + " bytes"@,
            None => seq![],
        } + ")"@
    }
}

/// The line that lists one entry of a vault folder.
pub fn listing_line(name: &str, is_dir: bool, size: Option<u64>) -> (line: String)
    ensures
        line@ == listing_line_text(name@, is_dir, size),
{
    if is_dir {
        let mut s = String::from_str("  [DIR]  ");
        push_str(&mut s, name);
        push_str(&mut s, "/");
        s
    } else {
        let mut s = String::from_str("  [FILE] ");
        push_str(&mut s, name);
        push_str(&mut s, " (");
        let ghost before = s@;
        match size {
            Some(n) => {
                push_decimal(&mut s, n as u128);
                push_str(&mut s, " bytes");
            },
            None => {},
        }
        push_str(&mut s, ")");
        assert(s@ =~= listing_line_text(name@, is_dir, size));
        s
    }
}

} // verus!
