use axiomvault_cli::conversions::{sync_status_label, SyncStatusKind};
use axiomvault_cli::conversions::{
    conflict_strategy_from, describe_sync_mode, require_positive_interval, sync_mode_from,
    ConflictStrategy, ConflictStrategyArg, IntervalError, SyncMode, SyncModeArg,
};

#[test]
fn periodic_mode_requires_non_zero_interval() {
    let err = sync_mode_from(SyncModeArg::Periodic, Some(0)).unwrap_err();
    assert!(err
        .message()
        .contains("Interval must be greater than 0 seconds for periodic mode"));
}

#[test]
fn hybrid_mode_requires_non_zero_interval() {
    let err = sync_mode_from(SyncModeArg::Hybrid, Some(0)).unwrap_err();
    assert!(err
        .message()
        .contains("Interval must be greater than 0 seconds for hybrid mode"));
}

#[test]
fn periodic_mode_accepts_positive_interval() {
    let mode = sync_mode_from(SyncModeArg::Periodic, Some(30)).unwrap();
    match mode {
        SyncMode::Periodic { interval_secs } => assert_eq!(interval_secs, 30),
        other => panic!("expected periodic mode, got {other:?}"),
    }
}

#[test]
fn modes_without_interval() {
    assert_eq!(sync_mode_from(SyncModeArg::Manual, None).unwrap(), SyncMode::Manual);
    assert_eq!(sync_mode_from(SyncModeArg::OnDemand, Some(0)).unwrap(), SyncMode::OnDemand);
    let err = sync_mode_from(SyncModeArg::Hybrid, None).unwrap_err();
    assert_eq!(err, IntervalError::Missing("hybrid".to_string()));
    assert_eq!(err.message(), "Interval required for hybrid mode");
    assert_eq!(require_positive_interval(Some(5), "x").unwrap(), 5);
}

#[test]
fn conflict_strategies_map_one_to_one() {
    assert_eq!(conflict_strategy_from(ConflictStrategyArg::KeepBoth), ConflictStrategy::KeepBoth);
    assert_eq!(conflict_strategy_from(ConflictStrategyArg::PreferLocal), ConflictStrategy::PreferLocal);
    assert_eq!(conflict_strategy_from(ConflictStrategyArg::PreferRemote), ConflictStrategy::PreferRemote);
}

#[test]
fn sync_mode_descriptions_match_duration_debug() {
    assert_eq!(describe_sync_mode(SyncMode::Manual), "Manual");
    assert_eq!(describe_sync_mode(SyncMode::OnDemand), "On-demand");
    assert_eq!(
        describe_sync_mode(SyncMode::Periodic { interval_secs: 300 }),
        format!("Periodic (every {:?})", std::time::Duration::from_secs(300))
    );
    assert_eq!(describe_sync_mode(SyncMode::Hybrid { interval_secs: 1 }), "Hybrid (every 1s)");
}

#[test]
fn sync_status_labels() {
    assert_eq!(sync_status_label(SyncStatusKind::LocalModified), "Local modified");
    assert_eq!(sync_status_label(SyncStatusKind::Failed), "Failed");
}
