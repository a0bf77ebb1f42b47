use axiomvault_cli::raid::{
    add_backend, choose_rebuild_target, configure_raid_mode, mode_line, parse_backend_settings,
    plan_backend_removal, plan_shard_migration, progress_line, raid_config_path,
    raid_mode_config_for, raid_mode_from_config, reindex_shard_map_without, remove_backend_entry,
    restore_backend_entry, shard_map_references, shards_per_backend, should_sync_shard_map,
    status_header, status_row, BackendEntry, HealthStatus, RaidConfig, RaidError, RaidMode,
    RaidModeArg, RaidModeConfig, ShardEntry, ShardLocation, ShardMap, ShardMigration,
};

fn entry(provider: &str) -> BackendEntry {
    BackendEntry {
        provider_type: provider.to_string(),
        config: parse_backend_settings("{\"root\": \"/x\"}").unwrap(),
    }
}

fn mode(t: &str, k: Option<usize>, m: Option<usize>) -> RaidModeConfig {
    RaidModeConfig { mode_type: t.to_string(), data_shards: k, parity_shards: m }
}

fn pool(mode_cfg: RaidModeConfig, n: usize) -> RaidConfig {
    RaidConfig { mode: mode_cfg, backends: (0..n).map(|i| entry(&format!("p{i}"))).collect() }
}

fn filled(completed: usize, skipped: usize, failed: usize, total: usize) -> usize {
    let pct = if total == 0 { 100.0 } else { (completed + skipped + failed) as f64 / total as f64 * 100.0 };
    let f = ((pct / 100.0) * 30.0) as usize;
    f.min(30)
}

fn line(completed: usize, skipped: usize, failed: usize, total: usize, eta: Option<u64>) -> String {
    let pct = if total == 0 { 100.0 } else { (completed + skipped + failed) as f64 / total as f64 * 100.0 };
    progress_line(
        filled(completed, skipped, failed, total),
        &format!("{:>3.0}", pct),
        completed,
        skipped,
        failed,
        total,
        eta,
    )
}

#[test]
fn test_print_progress_bar_zero_percent() {
    assert_eq!(line(0, 0, 0, 100, None), format!("\r[{}]   0% (0/100 chunks)", " ".repeat(30)));
}

#[test]
fn test_print_progress_bar_full_progress() {
    assert_eq!(line(10, 0, 0, 10, None), format!("\r[{}] 100% (10/10 chunks)", "=".repeat(30)));
}

#[test]
fn test_print_progress_bar_mid_progress_arrow() {
    assert_eq!(
        line(5, 0, 0, 10, Some(3)),
        format!("\r[{}>{}]  50% (5/10 chunks, ETA: 3s)", "=".repeat(14), " ".repeat(15))
    );
}

#[test]
fn test_print_progress_bar_one_unit_filled() {
    assert_eq!(line(4, 0, 0, 100, None), format!("\r[>{}]   4% (4/100 chunks)", " ".repeat(29)));
}

#[test]
fn test_print_progress_bar_eta_displayed() {
    assert!(line(5, 0, 0, 10, Some(12)).ends_with("(5/10 chunks, ETA: 12s)"));
}

#[test]
fn test_print_progress_bar_no_eta_when_nothing_done() {
    assert!(line(0, 0, 0, 10, None).ends_with("(0/10 chunks)"));
}

#[test]
fn test_print_progress_bar_empty_total() {
    assert_eq!(line(0, 0, 0, 0, None), format!("\r[{}] 100% (0/0 chunks)", "=".repeat(30)));
}

#[test]
fn test_print_progress_bar_counts_all_outcomes() {
    assert_eq!(
        line(5, 3, 2, 30, None),
        format!("\r[{}>{}]  33% (10/30 chunks)", "=".repeat(8), " ".repeat(21))
    );
}

#[test]
fn config_path_joins_components() {
    assert_eq!(raid_config_path("/vault"), "/vault/.axiomvault/raid.json");
    assert_eq!(raid_config_path("/vault/"), "/vault/.axiomvault/raid.json");
    assert_eq!(raid_config_path(""), ".axiomvault/raid.json");
    for base in ["v", "/a/b", "/a/b/", "."] {
        let expected = std::path::Path::new(base).join(".axiomvault").join("raid.json");
        assert_eq!(raid_config_path(base), expected.to_string_lossy());
    }
}

#[test]
fn modes_read_from_configuration() {
    assert_eq!(raid_mode_from_config(&mode("mirror", None, None)).unwrap(), RaidMode::Mirror);
    assert_eq!(
        raid_mode_from_config(&mode("erasure", Some(2), Some(1))).unwrap(),
        RaidMode::Erasure { data_shards: 2, parity_shards: 1 }
    );
    assert_eq!(
        raid_mode_from_config(&mode("erasure", None, Some(1))).unwrap_err(),
        RaidError::MissingDataShards
    );
    assert_eq!(
        raid_mode_from_config(&mode("erasure", Some(1), None)).unwrap_err(),
        RaidError::MissingParityShards
    );
    let err = raid_mode_from_config(&mode("raid0", None, None)).unwrap_err();
    assert_eq!(err.message(), "Unknown RAID mode type: raid0");
}

#[test]
fn configure_validates_shards() {
    assert_eq!(
        raid_mode_config_for(RaidModeArg::Erasure, None, Some(1), 3).unwrap_err(),
        RaidError::DataShardsNotGiven
    );
    assert_eq!(
        raid_mode_config_for(RaidModeArg::Erasure, Some(0), Some(1), 3).unwrap_err(),
        RaidError::ZeroDataShards
    );
    assert_eq!(
        raid_mode_config_for(RaidModeArg::Erasure, Some(1), Some(0), 3).unwrap_err(),
        RaidError::ZeroParityShards
    );
    let err = raid_mode_config_for(RaidModeArg::Erasure, Some(2), Some(2), 3).unwrap_err();
    assert_eq!(err.message(), "data-shards (2) + parity-shards (2) must equal backend count (3)");
    assert_eq!(
        raid_mode_config_for(RaidModeArg::Erasure, Some(usize::MAX), Some(2), 3).unwrap_err(),
        RaidError::ShardSumMismatch { data_shards: usize::MAX, parity_shards: 2, backends: 3 }
    );
    let mut cfg = pool(mode("mirror", None, None), 3);
    configure_raid_mode(&mut cfg, RaidModeArg::Erasure, Some(2), Some(1)).unwrap();
    assert_eq!(cfg.mode, mode("erasure", Some(2), Some(1)));
    assert_eq!(cfg.backends.len(), 3);
    configure_raid_mode(&mut cfg, RaidModeArg::Mirror, Some(9), None).unwrap();
    assert_eq!(cfg.mode, mode("mirror", None, None));
}

#[test]
fn adding_backends() {
    let cause = serde_json::from_str::<serde_json::Value>("{not json").unwrap_err().to_string();
    let err = parse_backend_settings("{not json").unwrap_err();
    assert_eq!(err, RaidError::InvalidJson(cause.clone()));
    assert_eq!(err.message(), "Invalid JSON config");
    assert!(cause.contains("line 1"));
    let cfg = add_backend(None, entry("local"));
    assert_eq!(cfg.mode, mode("mirror", None, None));
    assert_eq!(cfg.backends.len(), 1);
    assert!(!should_sync_shard_map(&cfg));
    let cfg = add_backend(Some(cfg), entry("gdrive"));
    assert_eq!(cfg.backends[1].provider_type, "gdrive");
    assert!(should_sync_shard_map(&cfg));
}

#[test]
fn removal_plans() {
    let cfg = pool(mode("mirror", None, None), 2);
    assert_eq!(
        plan_backend_removal(&cfg, 2).unwrap_err().message(),
        "Backend index 2 out of range (have 2 backends)"
    );
    assert_eq!(
        plan_backend_removal(&cfg, 0).unwrap_err().message(),
        "Cannot remove backend: mirror mode requires at least 2 backends, but only 1 would remain"
    );
    let cfg = pool(mode("erasure", Some(2), Some(1)), 4);
    let plan = plan_backend_removal(&cfg, 3).unwrap();
    assert_eq!(plan.remaining, 3);
    assert_eq!(plan.min_required, 3);
    assert!(plan.zero_fault_tolerance);
    assert!(plan.update_shard_map);
    let cfg = pool(mode("erasure", None, None), 1);
    let plan = plan_backend_removal(&cfg, 0).unwrap();
    assert!(!plan.update_shard_map);
    let cfg = pool(mode("erasure", Some(usize::MAX), Some(usize::MAX)), 3);
    assert!(matches!(
        plan_backend_removal(&cfg, 0).unwrap_err(),
        RaidError::InsufficientRedundancy { .. }
    ));
}

fn shard_map() -> ShardMap {
    let loc = |k: usize, l: usize| (k, ShardLocation { shard_index: k, location: l });
    ShardMap {
        entries: vec![
            ShardEntry { shards: vec![loc(0, 10), loc(1, 11), loc(2, 12)] },
            ShardEntry { shards: vec![loc(2, 20), loc(0, 21)] },
            ShardEntry { shards: vec![] },
        ],
        version: 7,
    }
}

#[test]
fn shard_map_reindexing() {
    let mut map = shard_map();
    assert!(shard_map_references(&map, 1));
    assert!(!shard_map_references(&map, 3));
    reindex_shard_map_without(&mut map, 1);
    assert_eq!(map.version, 8);
    let keys: Vec<Vec<(usize, usize, usize)>> = map
        .entries
        .iter()
        .map(|e| e.shards.iter().map(|(k, l)| (*k, l.shard_index, l.location)).collect())
        .collect();
    assert_eq!(keys, vec![vec![(0, 0, 10), (1, 1, 12)], vec![(1, 1, 20), (0, 0, 21)], vec![]]);
}

#[test]
fn shard_counts() {
    let map = shard_map();
    assert_eq!(shards_per_backend(&map, 3), vec![2, 1, 2]);
    assert_eq!(shards_per_backend(&map, 2), vec![2, 1]);
    assert_eq!(shards_per_backend(&map, 0), Vec::<usize>::new());
}

#[test]
fn migration_decisions() {
    let health = vec![Some(HealthStatus::Healthy), Some(HealthStatus::Degraded), Some(HealthStatus::Healthy)];
    assert_eq!(
        plan_shard_migration(&mode("erasure", Some(2), Some(1)), true, &health, 0).unwrap(),
        ShardMigration::Rebuild { target: 2 }
    );
    assert_eq!(
        plan_shard_migration(&mode("erasure", Some(2), Some(1)), true, &vec![Some(HealthStatus::Healthy), None], 0)
            .unwrap_err(),
        RaidError::NoHealthyTarget
    );
    assert_eq!(
        plan_shard_migration(&mode("mirror", None, None), true, &health, 0).unwrap(),
        ShardMigration::MirrorHoldsData
    );
    assert_eq!(
        plan_shard_migration(&mode("erasure", None, None), false, &health, 0).unwrap(),
        ShardMigration::Nothing
    );
}

#[test]
fn remove_and_restore() {
    let mut cfg = pool(mode("mirror", None, None), 3);
    let removed = remove_backend_entry(&mut cfg, 1);
    assert_eq!(removed.provider_type, "p1");
    assert_eq!(cfg.backends.len(), 2);
    assert_eq!(cfg.backends[1].provider_type, "p2");
    restore_backend_entry(&mut cfg, 1, removed);
    let names: Vec<&str> = cfg.backends.iter().map(|b| b.provider_type.as_str()).collect();
    assert_eq!(names, vec!["p0", "p1", "p2"]);
}

#[test]
fn rebuild_targets() {
    assert_eq!(
        choose_rebuild_target(None, &vec![Some(HealthStatus::Healthy)]).unwrap_err(),
        RaidError::RebuildNeedsTwoBackends
    );
    assert_eq!(
        choose_rebuild_target(Some(5), &vec![Some(HealthStatus::Healthy), Some(HealthStatus::Healthy)])
            .unwrap_err()
            .message(),
        "Target index 5 out of range (have 2 backends)"
    );
    assert_eq!(choose_rebuild_target(Some(1), &vec![Some(HealthStatus::Healthy), Some(HealthStatus::Healthy)]).unwrap(), 1);
    assert_eq!(
        choose_rebuild_target(None, &vec![Some(HealthStatus::Healthy), None, Some(HealthStatus::Unhealthy)]).unwrap(),
        2
    );
    assert_eq!(
        choose_rebuild_target(None, &vec![Some(HealthStatus::Healthy), Some(HealthStatus::Healthy)]).unwrap_err(),
        RaidError::AllHealthy
    );
}

#[test]
fn status_lines() {
    assert_eq!(
        status_header(),
        format!("  {:<6} {:<12} {:<10} {:<8} Last Success", "Index", "Provider", "Health", "Shards")
    );
    assert_eq!(
        status_row(3, "gdrive", "Healthy", 42, "never"),
        format!("  {:<6} {:<12} {:<10} {:<8} {}", 3, "gdrive", "Healthy", 42, "never")
    );
    assert_eq!(mode_line(&mode("mirror", None, None)), "  Mode: Mirror (RAID 1)");
    assert_eq!(
        mode_line(&mode("erasure", Some(4), None)),
        "  Mode: Erasure (RAID 5/6) — k=4, m=0"
    );
    assert_eq!(mode_line(&mode("other", None, None)), "  Mode: other");
}

#[test]
fn configured_full_erasure_pool_refuses_removal() {
    let mut cfg = pool(mode("mirror", None, None), 3);
    configure_raid_mode(&mut cfg, RaidModeArg::Erasure, Some(2), Some(1)).unwrap();
    assert_eq!(raid_mode_from_config(&cfg.mode).unwrap(), RaidMode::Erasure { data_shards: 2, parity_shards: 1 });
    for index in 0..3 {
        assert!(matches!(
            plan_backend_removal(&cfg, index).unwrap_err(),
            RaidError::InsufficientRedundancy { min_required: 3, remaining: 2, .. }
        ));
    }
}

#[test]
fn removing_the_added_backend_restores_the_pool() {
    let before = pool(mode("mirror", None, None), 2);
    let mut cfg = add_backend(Some(before), entry("new"));
    let removed = remove_backend_entry(&mut cfg, 2);
    assert_eq!(removed.provider_type, "new");
    let names: Vec<&str> = cfg.backends.iter().map(|b| b.provider_type.as_str()).collect();
    assert_eq!(names, vec!["p0", "p1"]);
}

#[test]
fn shards_move_to_the_first_healthy_other_backend() {
    let health = vec![
        Some(HealthStatus::Healthy),
        Some(HealthStatus::Unhealthy),
        None,
        Some(HealthStatus::Healthy),
        Some(HealthStatus::Healthy),
    ];
    let erasure = mode("erasure", Some(2), Some(1));
    assert_eq!(plan_shard_migration(&erasure, true, &health, 0).unwrap(), ShardMigration::Rebuild { target: 3 });
    assert_eq!(plan_shard_migration(&erasure, true, &health, 3).unwrap(), ShardMigration::Rebuild { target: 0 });
    let lone = vec![Some(HealthStatus::Healthy), Some(HealthStatus::Degraded)];
    assert_eq!(plan_shard_migration(&erasure, true, &lone, 0).unwrap_err(), RaidError::NoHealthyTarget);
}

#[test]
fn default_rebuild_target_is_the_first_unhealthy_backend() {
    let health = vec![
        Some(HealthStatus::Healthy),
        None,
        Some(HealthStatus::Degraded),
        Some(HealthStatus::Unhealthy),
    ];
    assert_eq!(choose_rebuild_target(None, &health).unwrap(), 2);
    let unknown = vec![None, None, Some(HealthStatus::Healthy)];
    assert_eq!(choose_rebuild_target(None, &unknown).unwrap_err(), RaidError::AllHealthy);
}

#[test]
fn backend_settings_are_the_parsed_text() {
    let text = "{\"root\": \"/vaults/a\", \"retries\": 3}";
    let value = parse_backend_settings(text).unwrap();
    assert_eq!(value, serde_json::from_str::<serde_json::Value>(text).unwrap());
    assert_eq!(value["root"], "/vaults/a");
    assert_ne!(value, parse_backend_settings("{}").unwrap());
}
