use axiomvault_cli::health::{health_report_lines, CheckFinding, HealthReport, Severity};
use axiomvault_cli::security::{
    publish_sensitive_file, temporary_file_name, FailureKind, PublishAction, PublishEvent,
    PublishFailure,
};

#[test]
fn publication_happy_path() {
    let (mut p, a) = publish_sensitive_file(Some("secret.json"));
    assert_eq!(a, PublishAction::CheckDestination);
    assert_eq!(p.advance(PublishEvent::DestinationChecked { exists: false }), PublishAction::ReadNonce);
    assert_eq!(
        p.advance(PublishEvent::NonceRead { nonce: 9 }),
        PublishAction::CreateTemporary { nonce: 9, attempt: 0 }
    );
    assert_eq!(
        p.advance(PublishEvent::NameTaken),
        PublishAction::CreateTemporary { nonce: 9, attempt: 1 }
    );
    assert_eq!(p.advance(PublishEvent::Succeeded), PublishAction::WriteContents);
    assert_eq!(p.advance(PublishEvent::Succeeded), PublishAction::SyncFile);
    assert_eq!(p.advance(PublishEvent::Succeeded), PublishAction::ReadMode);
    assert_eq!(p.advance(PublishEvent::ModeRead { mode: 0o100600 }), PublishAction::LinkIntoPlace);
    assert_eq!(p.advance(PublishEvent::Succeeded), PublishAction::RemoveTemporary);
    assert_eq!(p.advance(PublishEvent::Succeeded), PublishAction::SyncParent);
    assert_eq!(p.advance(PublishEvent::Succeeded), PublishAction::Succeed);
    assert!(p.is_finished());
}

#[test]
fn sensitive_publication_never_clobbers_an_existing_destination() {
    let (mut p, _) = publish_sensitive_file(Some("secret.json"));
    let a = p.advance(PublishEvent::DestinationChecked { exists: true });
    assert_eq!(a, PublishAction::Fail(PublishFailure::DestinationExists));
    let (kind, message) = PublishFailure::DestinationExists.report().unwrap();
    assert_eq!(kind, FailureKind::AlreadyExists);
    assert_eq!(message, "destination already exists");
}

#[test]
fn publication_without_file_name_fails() {
    let (p, a) = publish_sensitive_file(None);
    assert!(p.is_finished());
    assert_eq!(a, PublishAction::Fail(PublishFailure::NoFileName));
}

#[test]
fn publication_discards_temporary_on_failure() {
    let (mut p, _) = publish_sensitive_file(Some("s"));
    p.advance(PublishEvent::DestinationChecked { exists: false });
    p.advance(PublishEvent::NonceRead { nonce: 1 });
    p.advance(PublishEvent::Succeeded);
    p.advance(PublishEvent::Succeeded);
    p.advance(PublishEvent::Succeeded);
    assert_eq!(p.advance(PublishEvent::ModeRead { mode: 0o644 }), PublishAction::DiscardTemporary);
    assert_eq!(
        p.advance(PublishEvent::Succeeded),
        PublishAction::Fail(PublishFailure::Permissions { mode: 0o644 })
    );
    let (kind, message) = PublishFailure::Permissions { mode: 0o644 }.report().unwrap();
    assert_eq!(kind, FailureKind::PermissionDenied);
    assert_eq!(message, "temporary file permissions are 644, expected 600");

    let (mut p, _) = publish_sensitive_file(Some("s"));
    p.advance(PublishEvent::DestinationChecked { exists: false });
    p.advance(PublishEvent::NonceRead { nonce: 1 });
    p.advance(PublishEvent::Succeeded);
    assert_eq!(p.advance(PublishEvent::Failed), PublishAction::DiscardTemporary);
    assert_eq!(p.advance(PublishEvent::Failed), PublishAction::Fail(PublishFailure::Io));
}

#[test]
fn publication_gives_up_after_all_names_are_taken() {
    let (mut p, _) = publish_sensitive_file(Some("s"));
    p.advance(PublishEvent::DestinationChecked { exists: false });
    let mut a = p.advance(PublishEvent::NonceRead { nonce: 1 });
    let mut tries = 1;
    while let PublishAction::CreateTemporary { .. } = a {
        a = p.advance(PublishEvent::NameTaken);
        tries += 1;
    }
    assert_eq!(tries, 129);
    assert_eq!(a, PublishAction::Fail(PublishFailure::NoTemporaryName));
}

#[test]
fn temporary_names() {
    assert_eq!(
        temporary_file_name("secret.json", 42, u128::MAX, 3),
        format!(".secret.json.axiom-tmp-42-{}-3", u128::MAX)
    );
}

#[test]
fn health_report_layout() {
    let report = HealthReport {
        component: "vault".to_string(),
        results: vec![
            CheckFinding {
                severity: Severity::Info,
                check_name: "config".to_string(),
                message: "ok".to_string(),
                auto_fixable: false,
            },
            CheckFinding {
                severity: Severity::Error,
                check_name: "tree".to_string(),
                message: "broken".to_string(),
                auto_fixable: true,
            },
        ],
        status: "Unhealthy".to_string(),
    };
    assert_eq!(
        health_report_lines(&report),
        vec![
            "Vault Health Report: vault".to_string(),
            "=".repeat(50),
            "  [OK]   config: ok".to_string(),
            "  [ERR]  tree: broken".to_string(),
            "         (auto-fixable)".to_string(),
            String::new(),
            "Result: Unhealthy".to_string(),
        ]
    );
}

use axiomvault_cli::completions::{
    completion_install_target, needs_zsh_setup_hint, CompletionError, CompletionShell,
};

#[test]
fn completion_targets() {
    assert_eq!(
        completion_install_target(CompletionShell::Zsh, Some("/home/u".to_string())).unwrap(),
        ("/home/u/.zsh/completions".to_string(), "/home/u/.zsh/completions/_axiom".to_string())
    );
    assert_eq!(
        completion_install_target(CompletionShell::Bash, Some("/root/".to_string())).unwrap().1,
        "/root/.local/share/bash-completion/completions/axiom"
    );
    assert_eq!(
        completion_install_target(CompletionShell::Fish, Some("/h".to_string())).unwrap().1,
        "/h/.config/fish/completions/axiom.fish"
    );
    assert_eq!(
        completion_install_target(CompletionShell::Zsh, None).unwrap_err(),
        CompletionError::HomeNotSet
    );
    let err = completion_install_target(CompletionShell::PowerShell, Some("/h".to_string())).unwrap_err();
    assert_eq!(
        err.message(),
        "Automatic installation not supported for PowerShell. Use `axiom completions PowerShell` and redirect to a file."
    );
    assert!(needs_zsh_setup_hint(CompletionShell::Zsh));
    assert!(!needs_zsh_setup_hint(CompletionShell::Fish));
}

use axiomvault_cli::vault_files::{listing_line, plan_migration, FormatStatus, MigrationPlan};

#[test]
fn migration_plans() {
    assert_eq!(plan_migration(FormatStatus::UpToDate, true, false), MigrationPlan::AlreadyCurrent);
    assert_eq!(
        plan_migration(FormatStatus::Incompatible, true, false),
        MigrationPlan::RefuseIncompatible
    );
    assert_eq!(plan_migration(FormatStatus::NeedsMigration, false, true), MigrationPlan::RefuseNoPath);
    assert_eq!(plan_migration(FormatStatus::NeedsMigration, true, true), MigrationPlan::ShowStepsOnly);
    assert_eq!(
        plan_migration(FormatStatus::NeedsMigration, true, false),
        MigrationPlan::ShowStepsAndMigrate
    );
}

#[test]
fn listing_lines() {
    assert_eq!(listing_line("docs", true, Some(4)), "  [DIR]  docs/");
    assert_eq!(listing_line("a.txt", false, Some(1234)), "  [FILE] a.txt (1234 bytes)");
    assert_eq!(listing_line("b", false, None), "  [FILE] b ()");
}
