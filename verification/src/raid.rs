//! RAID pool configuration: where it is kept, which mode it selects, how
//! backends join and leave, how the shard map follows a removal, and what
//! the status and rebuild commands decide and show.

use vstd::prelude::*;
use crate::text::{decimal, path_join, push_component, push_decimal, push_str};

verus! {

#[verifier::external_type_specification]
#[verifier::external_body]
pub struct ExJsonValue(serde_json::Value);

/// `serde_json::from_str` accepts the text as a JSON value.
pub uninterp spec fn json_text_parses(text: Seq<char>) -> bool;

/// The JSON value that `serde_json::from_str` parses the text into.
pub uninterp spec fn json_value_of(text: Seq<char>) -> serde_json::Value;

/// The message of the error with which `serde_json::from_str` rejects the
/// text (what it is and where in the text).
pub uninterp spec fn json_error_text(text: Seq<char>) -> Seq<char>;

/// Calls `serde_json::from_str::<serde_json::Value>`, and turns a
/// `serde_json::Error` into its message. Claimed: it succeeds exactly when
/// the text is accepted, and then gives the value that the text denotes;
/// otherwise it gives the error's message. All three depend on the text
/// alone and are named, not spelled out.
#[verifier::external_body]
fn parse_json_value(text: &str) -> (r: Result<serde_json::Value, String>)
    ensures
        r is Ok <==> json_text_parses(text@),
        r matches Ok(v) ==> v == json_value_of(text@),
        r matches Err(m) ==> m@ == json_error_text(text@),
{
    match serde_json::from_str(text) {
        Ok(v) => Ok(v),
        Err(e) => Err(e.to_string()),
    }
}

/// Where the RAID configuration of a vault is kept: `.axiomvault/raid.json`
/// under the vault folder.
pub fn raid_config_path(vault_path: &str) -> (p: String)
    ensures
        p@ == path_join(path_join(vault_path@, ".axiomvault"@), "raid.json"@),
{
    let mut p = String::from_str(vault_path);
    push_component(&mut p, ".axiomvault");
    push_component(&mut p, "raid.json");
    p
}

/// How the pool stores data, as saved in its configuration.
#[derive(Debug, Clone, PartialEq, Eq)]
pub struct RaidModeConfig {
    /// `"mirror"` or `"erasure"`.
    pub mode_type: String,
    /// Number of data shards (erasure only).
    pub data_shards: Option<usize>,
    /// Number of parity shards (erasure only).
    pub parity_shards: Option<usize>,
}

/// One storage backend of the pool.
#[derive(Debug)]
pub struct BackendEntry {
    /// Provider type name (such as `"local"` or `"gdrive"`).
    pub provider_type: String,
    /// Provider-specific settings.
    pub config: serde_json::Value,
}

/// The saved RAID configuration: the mode and the backends, in index order.
#[derive(Debug)]
pub struct RaidConfig {
    /// How data is stored.
    pub mode: RaidModeConfig,
    /// The backends, indexed from 0.
    pub backends: Vec<BackendEntry>,
}

/// How the pool stores data.
#[derive(Debug, Clone, Copy, PartialEq, Eq, Structural)]
pub enum RaidMode {
    /// Every backend holds every file (RAID 1).
    Mirror,
    /// Reed-Solomon shards (RAID 5/6).
    Erasure { data_shards: usize, parity_shards: usize },
}

/// The RAID mode as the command line names it.
#[derive(Debug, Clone, Copy, PartialEq, Eq, Structural)]
pub enum RaidModeArg {
    /// Mirror (RAID 1).
    Mirror,
    /// Erasure coding (RAID 5/6).
    Erasure,
}

/// Why a RAID command refuses to go on.
#[derive(Debug, Clone, PartialEq, Eq)]
pub enum RaidError {
    /// The vault has no RAID configuration.
    NotConfigured,
    /// The backend settings are not JSON; the parser's message.
    InvalidJson(String),
    /// The saved mode is neither `mirror` nor `erasure`.
    UnknownMode(String),
    /// A saved erasure mode without its number of data shards.
    MissingDataShards,
    /// A saved erasure mode without its number of parity shards.
    MissingParityShards,
    /// Erasure coding was asked for without `--data-shards`.
    DataShardsNotGiven,
    /// Erasure coding was asked for without `--parity-shards`.
    ParityShardsNotGiven,
    /// Zero data shards were asked for.
    ZeroDataShards,
    /// Zero parity shards were asked for.
    ZeroParityShards,
    /// The shards asked for do not add up to the number of backends.
    ShardSumMismatch { data_shards: usize, parity_shards: usize, backends: usize },
    /// No backend has the index.
    IndexOutOfRange { index: usize, backends: usize },
    /// Removing a backend would leave fewer than the mode needs.
    InsufficientRedundancy { mode_type: String, min_required: u128, remaining: usize },
    /// No healthy backend can take the shards of one being removed.
    NoHealthyTarget,
    /// Moving the shards of a backend being removed failed for some.
    MigrationFailures(usize),
    /// A rebuild needs at least two backends.
    RebuildNeedsTwoBackends,
    /// No backend has the rebuild target's index.
    TargetOutOfRange { index: usize, backends: usize },
    /// No backend needs rebuilding.
    AllHealthy,
}

/// The text of a [`RaidError`].
pub open spec fn raid_error_text(e: RaidError) -> Seq<char> {
    match e {
        RaidError::NotConfigured => "No RAID configuration found. Run raid-add-backend first."@,
        RaidError::InvalidJson(_) => "Invalid JSON config"@,
        RaidError::UnknownMode(m) => "Unknown RAID mode type: "@ + m@,
        RaidError::MissingDataShards => "erasure mode requires data_shards"@,
        RaidError::MissingParityShards => "erasure mode requires parity_shards"@,
        RaidError::DataShardsNotGiven => "Erasure mode requires --data-shards (-k)"@,
        RaidError::ParityShardsNotGiven => "Erasure mode requires --parity-shards (-m)"@,
        RaidError::ZeroDataShards => "data-shards must be at least 1"@,
        RaidError::ZeroParityShards => "parity-shards must be at least 1"@,
        RaidError::ShardSumMismatch { data_shards, parity_shards, backends } => "data-shards ("@
            + decimal(data_shards as nat) + ") + parity-shards ("@ + decimal(parity_shards as nat)
            + ") must equal backend count ("@ + decimal(backends as nat) + ")"@,
        RaidError::IndexOutOfRange { index, backends } => "Backend index "@ + decimal(index as nat)
            + " out of range (have "@ + decimal(backends as nat) + " backends)"@,
        RaidError::InsufficientRedundancy { mode_type, min_required, remaining } =>
            "Cannot remove backend: "@ + mode_type@ + " mode requires at least "@ + decimal(
            min_required as nat,
        ) + " backends, but only "@ + decimal(remaining as nat) + " would remain"@,
        RaidError::NoHealthyTarget => "No healthy backend available to receive redistributed shards. Aborting removal."@,
        RaidError::MigrationFailures(n) => "Shard migration had "@ + decimal(n as nat)
            + " failures. Aborting removal to prevent data loss."@,
        RaidError::RebuildNeedsTwoBackends => "Need at least 2 backends for RAID rebuild"@,
        RaidError::TargetOutOfRange { index, backends } => "Target index "@ + decimal(index as nat)
            + " out of range (have "@ + decimal(backends as nat) + " backends)"@,
        RaidError::AllHealthy => "All backends are healthy. Use --target to force rebuild on a specific backend."@,
    }
}

impl RaidError {
    /// The message of this error.
    pub fn message(&self) -> (s: String)
        ensures
            s@ == raid_error_text(*self),
    {
        match self {
            RaidError::NotConfigured => String::from_str(
                "No RAID configuration found. Run raid-add-backend first.",
            ),
            RaidError::InvalidJson(_) => String::from_str("Invalid JSON config"),
            RaidError::UnknownMode(m) => {
                let mut s = String::from_str("Unknown RAID mode type: ");
                push_str(&mut s, m.as_str());
                s
            },
            RaidError::MissingDataShards => String::from_str("erasure mode requires data_shards"),
            RaidError::MissingParityShards => String::from_str(
                "erasure mode requires parity_shards",
            ),
            RaidError::DataShardsNotGiven => String::from_str(
                "Erasure mode requires --data-shards (-k)",
            ),
            RaidError::ParityShardsNotGiven => String::from_str(
                "Erasure mode requires --parity-shards (-m)",
            ),
            RaidError::ZeroDataShards => String::from_str("data-shards must be at least 1"),
            RaidError::ZeroParityShards => String::from_str("parity-shards must be at least 1"),
            RaidError::ShardSumMismatch { data_shards, parity_shards, backends } => {
                let mut s = String::from_str("data-shards (");
                push_decimal(&mut s, *data_shards as u128);
                push_str(&mut s, ") + parity-shards (");
                push_decimal(&mut s, *parity_shards as u128);
                push_str(&mut s, ") must equal backend count (");
                push_decimal(&mut s, *backends as u128);
                push_str(&mut s, ")");
                s
            },
            RaidError::IndexOutOfRange { index, backends } => {
                let mut s = String::from_str("Backend index ");
                push_decimal(&mut s, *index as u128);
                push_str(&mut s, " out of range (have ");
                push_decimal(&mut s, *backends as u128);
                push_str(&mut s, " backends)");
                s
            },
            RaidError::InsufficientRedundancy { mode_type, min_required, remaining } => {
                let mut s = String::from_str("Cannot remove backend: ");
                push_str(&mut s, mode_type.as_str());
                push_str(&mut s, " mode requires at least ");
                push_decimal(&mut s, *min_required);
                push_str(&mut s, " backends, but only ");
                push_decimal(&mut s, *remaining as u128);
                push_str(&mut s, " would remain");
                s
            },
            RaidError::NoHealthyTarget => String::from_str(
                "No healthy backend available to receive redistributed shards. Aborting removal.",
            ),
            RaidError::MigrationFailures(n) => {
                let mut s = String::from_str("Shard migration had ");
                push_decimal(&mut s, *n as u128);
                push_str(&mut s, " failures. Aborting removal to prevent data loss.");
                s
            },
            RaidError::RebuildNeedsTwoBackends => String::from_str(
                "Need at least 2 backends for RAID rebuild",
            ),
            RaidError::TargetOutOfRange { index, backends } => {
                let mut s = String::from_str("Target index ");
                push_decimal(&mut s, *index as u128);
                push_str(&mut s, " out of range (have ");
                push_decimal(&mut s, *backends as u128);
                push_str(&mut s, " backends)");
                s
            },
            RaidError::AllHealthy => String::from_str(
                "All backends are healthy. Use --target to force rebuild on a specific backend.",
            ),
        }
    }
}

fn is_mode(mode_type: &String, name: &str) -> (r: bool)
    ensures
        r == (mode_type@ == name@),
{
    *mode_type == String::from_str(name)
}

/// The mode that a saved mode configuration selects.
pub open spec fn raid_mode_of(cfg: RaidModeConfig) -> Result<RaidMode, RaidError> {
    if cfg.mode_type@ == "mirror"@ {
        Ok(RaidMode::Mirror)
    } else if cfg.mode_type@ == "erasure"@ {
        match (cfg.data_shards, cfg.parity_shards) {
            (None, _) => Err(RaidError::MissingDataShards),
            (Some(_), None) => Err(RaidError::MissingParityShards),
            (Some(k), Some(m)) => Ok(RaidMode::Erasure { data_shards: k, parity_shards: m }),
        }
    } else {
        Err(RaidError::UnknownMode(cfg.mode_type))
    }
}

/// The mode that a saved mode configuration selects.
pub fn raid_mode_from_config(cfg: &RaidModeConfig) -> (r: Result<RaidMode, RaidError>)
    ensures
        r == raid_mode_of(*cfg),
{
    if is_mode(&cfg.mode_type, "mirror") {
        Ok(RaidMode::Mirror)
    } else if is_mode(&cfg.mode_type, "erasure") {
        let data_shards = match cfg.data_shards {
            Some(k) => k,
            None => {
                return Err(RaidError::MissingDataShards);
            },
        };
        let parity_shards = match cfg.parity_shards {
            Some(m) => m,
            None => {
                return Err(RaidError::MissingParityShards);
            },
        };
        Ok(RaidMode::Erasure { data_shards, parity_shards })
    } else {
        Err(RaidError::UnknownMode(cfg.mode_type.clone()))
    }
}

/// The mirror mode configuration.
pub open spec fn is_mirror_config(m: RaidModeConfig) -> bool {
    m.mode_type@ == "mirror"@ && m.data_shards is None && m.parity_shards is None
}

/// The mirror mode configuration, which a new pool starts with.
pub fn mirror_mode_config() -> (m: RaidModeConfig)
    ensures
        is_mirror_config(m),
{
    RaidModeConfig { mode_type: String::from_str("mirror"), data_shards: None, parity_shards: None }
}

/// Parse the settings of a backend that is being added; text that is not
/// JSON is refused with the parser's message.
pub fn parse_backend_settings(config_json: &str) -> (r: Result<serde_json::Value, RaidError>)
    ensures
        r is Ok <==> json_text_parses(config_json@),
        r matches Ok(v) ==> v == json_value_of(config_json@),
        r matches Err(e) ==> e matches RaidError::InvalidJson(m) && m@ == json_error_text(
            config_json@,
        ),
{
    match parse_json_value(config_json) {
        Ok(v) => Ok(v),
        Err(m) => Err(RaidError::InvalidJson(m)),
    }
}

/// The configuration after a backend is added: the saved one, or a new
/// mirror pool when there is none, with `entry` appended.
pub fn add_backend(existing: Option<RaidConfig>, entry: BackendEntry) -> (cfg: RaidConfig)
    ensures
        match existing {
            Some(old) => cfg.mode == old.mode && cfg.backends@ == old.backends@.push(entry),
            None => is_mirror_config(cfg.mode) && cfg.backends@ == seq![entry],
        },
{
    let mut cfg = match existing {
        Some(c) => c,
        None => RaidConfig { mode: mirror_mode_config(), backends: Vec::new() },
    };
    cfg.backends.push(entry);
    cfg
}

/// Whether the shard map is brought over to the pool after a backend is
/// added: only once it has at least two backends.
pub fn should_sync_shard_map(cfg: &RaidConfig) -> (r: bool)
    ensures
        r == (cfg.backends@.len() >= 2),
{
    cfg.backends.len() >= 2
}

/// The mode configuration that `raid configure` asks for, for a pool of
/// `backends` backends.
pub open spec fn requested_mode(
    mode: RaidModeArg,
    data_shards: Option<usize>,
    parity_shards: Option<usize>,
    backends: usize,
) -> Result<(Option<usize>, Option<usize>), RaidError> {
    match mode {
        RaidModeArg::Mirror => Ok((None, None)),
        RaidModeArg::Erasure => match (data_shards, parity_shards) {
            (None, _) => Err(RaidError::DataShardsNotGiven),
            (Some(_), None) => Err(RaidError::ParityShardsNotGiven),
            (Some(k), Some(m)) => if k == 0 {
                Err(RaidError::ZeroDataShards)
            } else if m == 0 {
                Err(RaidError::ZeroParityShards)
            } else if k + m != backends {
                Err(RaidError::ShardSumMismatch { data_shards: k, parity_shards: m, backends })
            } else {
                Ok((Some(k), Some(m)))
            },
        },
    }
}

/// The mode configuration for `raid configure`: mirror, or erasure coding
/// with at least one data and one parity shard that together number the
/// backends.
pub fn raid_mode_config_for(
    mode: RaidModeArg,
    data_shards: Option<usize>,
    parity_shards: Option<usize>,
    backends: usize,
) -> (r: Result<RaidModeConfig, RaidError>)
    ensures
        match requested_mode(mode, data_shards, parity_shards, backends) {
            Ok((k, m)) => r matches Ok(c) && c.data_shards == k && c.parity_shards == m
                && c.mode_type@ == (if mode == RaidModeArg::Mirror {
                "mirror"@
            } else {
                "erasure"@
            }),
            Err(e) => r == Err::<RaidModeConfig, RaidError>(e),
        },
{
    match mode {
        RaidModeArg::Mirror => Ok(mirror_mode_config()),
        RaidModeArg::Erasure => {
            let k = match data_shards {
                Some(k) => k,
                None => {
                    return Err(RaidError::DataShardsNotGiven);
                },
            };
            let m = match parity_shards {
                Some(m) => m,
                None => {
                    return Err(RaidError::ParityShardsNotGiven);
                },
            };
            if k == 0 {
                return Err(RaidError::ZeroDataShards);
            }
            if m == 0 {
                return Err(RaidError::ZeroParityShards);
            }
            if k > backends || m != backends - k {
                return Err(RaidError::ShardSumMismatch { data_shards: k, parity_shards: m, backends });
            }
            Ok(
                RaidModeConfig {
                    mode_type: String::from_str("erasure"),
                    data_shards: Some(k),
                    parity_shards: Some(m),
                },
            )
        },
    }
}

/// Apply `raid configure` to a saved configuration: the mode changes when
/// the request is valid, the backends never do.
pub fn configure_raid_mode(
    cfg: &mut RaidConfig,
    mode: RaidModeArg,
    data_shards: Option<usize>,
    parity_shards: Option<usize>,
) -> (r: Result<(), RaidError>)
    ensures
        final(cfg).backends@ == old(cfg).backends@,
        match requested_mode(mode, data_shards, parity_shards, old(cfg).backends@.len() as usize) {
            Ok((k, m)) => r is Ok && final(cfg).mode.data_shards == k && final(cfg).mode.parity_shards == m
                && final(cfg).mode.mode_type@ == (if mode == RaidModeArg::Mirror {
                "mirror"@
            } else {
                "erasure"@
            }),
            Err(e) => r == Err::<(), RaidError>(e) && final(cfg).mode == old(cfg).mode,
        },
{
    let count = cfg.backends.len();
    let new_mode = raid_mode_config_for(mode, data_shards, parity_shards, count)?;
    cfg.mode = new_mode;
    Ok(())
}

/// A mode configuration that `raid configure` writes is one that
/// [`raid_mode_from_config`] accepts, with the same shard counts.
pub proof fn law_configured_mode_is_readable(
    mode: RaidModeArg,
    data_shards: Option<usize>,
    parity_shards: Option<usize>,
    backends: usize,
    cfg: RaidModeConfig,
)
    requires
        requested_mode(mode, data_shards, parity_shards, backends) matches Ok((k, m)) && cfg.data_shards
            == k && cfg.parity_shards == m && cfg.mode_type@ == (if mode == RaidModeArg::Mirror {
            "mirror"@
        } else {
            "erasure"@
        }),
    ensures
        raid_mode_of(cfg) == match mode {
            RaidModeArg::Mirror => Ok::<RaidMode, RaidError>(RaidMode::Mirror),
            RaidModeArg::Erasure => Ok::<RaidMode, RaidError>(
                RaidMode::Erasure {
                    data_shards: data_shards->0,
                    parity_shards: parity_shards->0,
                },
            ),
        },
{
    reveal_strlit("mirror");
    reveal_strlit("erasure");
    assert("mirror"@ != "erasure"@) by {
        assert("mirror"@[0] != "erasure"@[0]);
    }
}

/// The fewest backends that a mode needs: two for a mirror, data plus
/// parity shards for erasure coding (a missing count taken as 0), two for
/// any other mode.
pub open spec fn min_backends(mode: RaidModeConfig) -> int {
    if mode.mode_type@ == "mirror"@ {
        2
    } else if mode.mode_type@ == "erasure"@ {
        (match mode.data_shards {
            Some(k) => k as int,
            None => 0,
        }) + (match mode.parity_shards {
            Some(m) => m as int,
            None => 0,
        })
    } else {
        2
    }
}

/// What removing a backend involves, once it is allowed.
#[derive(Debug, Clone, Copy, PartialEq, Eq, Structural)]
pub struct RemovalPlan {
    /// Backends left after the removal.
    pub remaining: usize,
    /// Backends that the mode needs.
    pub min_required: u128,
    /// An erasure-coded pool is left with no spare backend.
    pub zero_fault_tolerance: bool,
    /// The shard map must be consulted and rewritten (two or more backends).
    pub update_shard_map: bool,
}

/// Whether the backend at `index` may be removed from a pool of `count`
/// backends with the given mode, and what that involves.
pub open spec fn removal_plan(mode: RaidModeConfig, count: nat, index: nat) -> Result<
    RemovalPlan,
    RaidError,
> {
    if index >= count {
        Err(RaidError::IndexOutOfRange { index: index as usize, backends: count as usize })
    } else if count - 1 < min_backends(mode) {
        Err(
            RaidError::InsufficientRedundancy {
                mode_type: mode.mode_type,
                min_required: min_backends(mode) as u128,
                remaining: (count - 1) as usize,
            },
        )
    } else {
        Ok(
            RemovalPlan {
                remaining: (count - 1) as usize,
                min_required: min_backends(mode) as u128,
                zero_fault_tolerance: mode.mode_type@ == "erasure"@ && count - 1 == min_backends(
                    mode,
                ),
                update_shard_map: count >= 2,
            },
        )
    }
}

/// A removal is flagged as leaving no fault tolerance exactly when the pool
/// is erasure-coded and is left with just the backends that its shards
/// need; a mirror is never so flagged. An allowed removal leaves one backend
/// fewer, at least as many as the mode needs.
pub proof fn law_zero_fault_tolerance_only_for_exhausted_erasure(
    mode: RaidModeConfig,
    count: nat,
    index: nat,
)
    requires
        count <= usize::MAX,
    ensures
        removal_plan(mode, count, index) matches Ok(p) ==> {
            &&& p.zero_fault_tolerance <==> (mode.mode_type@ == "erasure"@ && p.remaining
                == p.min_required)
            &&& p.remaining == count - 1
            &&& p.remaining >= p.min_required
            &&& index < count
        },
        mode.mode_type@ == "mirror"@ ==> !(removal_plan(mode, count, index) matches Ok(p)
            && p.zero_fault_tolerance),
{
    reveal_strlit("mirror");
    reveal_strlit("erasure");
    assert("mirror"@ != "erasure"@) by {
        assert("mirror"@[0] != "erasure"@[0]);
    }
}

/// Decide whether the backend at `index` may be removed, and what the
/// removal involves.
pub fn plan_backend_removal(cfg: &RaidConfig, index: usize) -> (r: Result<RemovalPlan, RaidError>)
    ensures
        r == removal_plan(cfg.mode, cfg.backends@.len(), index as nat),
{
    let count = cfg.backends.len();
    if index >= count {
        return Err(RaidError::IndexOutOfRange { index, backends: count });
    }
    let remaining = count - 1;
    let min_required: u128 = if is_mode(&cfg.mode.mode_type, "mirror") {
        2
    } else if is_mode(&cfg.mode.mode_type, "erasure") {
        let k: u128 = match cfg.mode.data_shards {
            Some(k) => k as u128,
            None => 0,
        };
        let m: u128 = match cfg.mode.parity_shards {
            Some(m) => m as u128,
            None => 0,
        };
        k + m
    } else {
        2
    };
    if (remaining as u128) < min_required {
        return Err(
            RaidError::InsufficientRedundancy {
                mode_type: cfg.mode.mode_type.clone(),
                min_required,
                remaining,
            },
        );
    }
    Ok(
        RemovalPlan {
            remaining,
            min_required,
            zero_fault_tolerance: is_mode(&cfg.mode.mode_type, "erasure") && remaining as u128
                == min_required,
            update_shard_map: count >= 2,
        },
    )
}

/// Where one shard of a file is kept: the shard number and a handle by which
/// the caller finds the rest of the location again.
#[derive(Debug, Clone, Copy, PartialEq, Eq, Structural)]
pub struct ShardLocation {
    /// The shard's index, which names the backend that holds it.
    pub shard_index: usize,
    /// The caller's handle for the location.
    pub location: usize,
}

/// The shards of one file, keyed by backend index.
///
/// The storage engine keeps them in a hash map; here they are a list of
/// `(backend index, location)` pairs with distinct keys ([`ShardEntry::wf`]).
/// The reindexing after a removal walks every entry and the counting walks
/// every shard, and the order in which a hash map is walked depends on the
/// hasher's per-process seed, so contracts over such a walk could not say
/// what is produced; over a list they say it exactly, in the list's order.
#[derive(Debug, Clone)]
pub struct ShardEntry {
    /// `(backend index, location)` pairs; no backend index occurs twice.
    pub shards: Vec<(usize, ShardLocation)>,
}

/// Which backends hold which shards of which files.
#[derive(Debug, Clone)]
pub struct ShardMap {
    /// One entry per file.
    pub entries: Vec<ShardEntry>,
    /// Bumped on every change.
    pub version: u64,
}

impl ShardEntry {
    /// The entry's invariant: no backend index occurs twice among its shards,
    /// as in the keyed map it stands for.
    pub open spec fn wf(&self) -> bool {
        keys_distinct(self.shards@)
    }
}

impl ShardMap {
    /// The map's invariant: every entry keeps its own.
    pub open spec fn wf(&self) -> bool {
        forall|i: int| 0 <= i < self.entries@.len() ==> #[trigger] self.entries@[i].wf()
    }
}

/// The backend indices of an entry's shards.
pub open spec fn shard_keys(s: Seq<(usize, ShardLocation)>) -> Seq<usize> {
    s.map_values(|p: (usize, ShardLocation)| p.0)
}

/// No backend index occurs twice among an entry's shards.
pub open spec fn keys_distinct(s: Seq<(usize, ShardLocation)>) -> bool {
    forall|i: int, j: int| 0 <= i < j < s.len() ==> #[trigger] s[i].0 != #[trigger] s[j].0
}

/// The index that backend `k` has once backend `removed` is gone (for
/// `k != removed`): the ones after it move down by one.
pub open spec fn shifted_index(k: usize, removed: usize) -> usize {
    if k > removed {
        (k - 1) as usize
    } else {
        k
    }
}

/// An entry's shards once backend `removed` is gone: its shard is dropped,
/// the others keep their order and take their shifted index, as key and as
/// shard index.
pub open spec fn shards_without(s: Seq<(usize, ShardLocation)>, removed: usize) -> Seq<
    (usize, ShardLocation),
>
    decreases s.len(),
{
    if s.len() == 0 {
        seq![]
    } else {
        let rest = shards_without(s.drop_last(), removed);
        let (k, loc) = s.last();
        if k == removed {
            rest
        } else {
            rest.push(
                (
                    shifted_index(k, removed),
                    ShardLocation { shard_index: shifted_index(k, removed), location: loc.location },
                ),
            )
        }
    }
}

/// Whether some file has a shard on backend `index`.
pub open spec fn references_backend(entries: Seq<ShardEntry>, index: usize) -> bool {
    exists|i: int, j: int|
        0 <= i < entries.len() && 0 <= j < entries[i].shards@.len() && #[trigger] entries[i].shards@[j].0
            == index
}

/// Whether some file has a shard on backend `index`.
pub fn shard_map_references(map: &ShardMap, index: usize) -> (r: bool)
    ensures
        r == references_backend(map.entries@, index),
{
    let n = map.entries.len();
    let mut i: usize = 0;
    while i < n
        invariant
            i <= n == map.entries@.len(),
            forall|a: int, b: int|
                0 <= a < i && 0 <= b < map.entries@[a].shards@.len() ==> #[trigger] map.entries@[a].shards@[b].0
                    != index,
        decreases n - i,
    {
        let entry = &map.entries[i];
        let m = entry.shards.len();
        let mut j: usize = 0;
        while j < m
            invariant
                i < n == map.entries@.len(),
                entry == map.entries@[i as int],
                j <= m == entry.shards@.len(),
                forall|b: int| 0 <= b < j ==> #[trigger] entry.shards@[b].0 != index,
            decreases m - j,
        {
            if entry.shards[j].0 == index {
                return true;
            }
            j = j + 1;
        }
        i = i + 1;
    }
    false
}

fn entry_without(s: &Vec<(usize, ShardLocation)>, removed: usize) -> (r: Vec<(usize, ShardLocation)>)
    ensures
        r@ == shards_without(s@, removed),
{
    let mut r: Vec<(usize, ShardLocation)> = Vec::new();
    let n = s.len();
    let mut j: usize = 0;
    while j < n
        invariant
            j <= n == s@.len(),
            r@ == shards_without(s@.take(j as int), removed),
        decreases n - j,
    {
        let (k, loc) = s[j];
        assert(s@.take(j + 1).drop_last() =~= s@.take(j as int));
        if k != removed {
            let nk = if k > removed {
                k - 1
            } else {
                k
            };
            r.push((nk, ShardLocation { shard_index: nk, location: loc.location }));
        }
        j = j + 1;
    }
    assert(s@.take(n as int) =~= s@);
    r
}

/// The shard map once backend `removed` is gone from the pool: every
/// entry's shards as [`shards_without`] gives them, and the next version.
pub fn reindex_shard_map_without(map: &mut ShardMap, removed: usize)
    requires
        old(map).version < u64::MAX,
    ensures
        final(map).version == old(map).version + 1,
        final(map).entries@.len() == old(map).entries@.len(),
        forall|i: int|
            0 <= i < old(map).entries@.len() ==> #[trigger] final(map).entries@[i].shards@
                == shards_without(old(map).entries@[i].shards@, removed),
        old(map).wf() ==> final(map).wf(),
{
    let mut entries: Vec<ShardEntry> = Vec::new();
    let n = map.entries.len();
    let mut i: usize = 0;
    while i < n
        invariant
            i <= n == map.entries@.len(),
            map.entries@ == old(map).entries@,
            entries@.len() == i,
            forall|k: int|
                0 <= k < i ==> #[trigger] entries@[k].shards@ == shards_without(
                    map.entries@[k].shards@,
                    removed,
                ),
        decreases n - i,
    {
        let shards = entry_without(&map.entries[i].shards, removed);
        entries.push(ShardEntry { shards });
        i = i + 1;
    }
    proof {
        if map.wf() {
            assert forall|i: int| 0 <= i < entries@.len() implies #[trigger] entries@[i].wf() by {
                assert(map.entries@[i].wf());
                lemma_shards_without_facts(map.entries@[i].shards@, removed, usize::MAX + 1);
            }
        }
    }
    map.entries = entries;
    map.version = map.version + 1;
}

proof fn lemma_shards_without_facts(s: Seq<(usize, ShardLocation)>, removed: usize, count: int)
    requires
        keys_distinct(s),
        forall|i: int| 0 <= i < s.len() ==> #[trigger] s[i].0 < count,
        removed < count,
    ensures
        keys_distinct(shards_without(s, removed)),
        forall|i: int|
            0 <= i < shards_without(s, removed).len() ==> {
                &&& #[trigger] shards_without(s, removed)[i].0 < count - 1
                &&& shards_without(s, removed)[i].1.shard_index == shards_without(s, removed)[i].0
                &&& exists|j: int|
                    0 <= j < s.len() && s[j].0 != removed && shifted_index(s[j].0, removed)
                        == shards_without(s, removed)[i].0
            },
    decreases s.len(),
{
    if s.len() > 0 {
        let p = s.drop_last();
        assert(keys_distinct(p));
        lemma_shards_without_facts(p, removed, count);
        let rest = shards_without(p, removed);
        let (k, loc) = s.last();
        if k != removed {
            let nk = shifted_index(k, removed);
            let r = shards_without(s, removed);
            assert(r == rest.push((nk, ShardLocation { shard_index: nk, location: loc.location })));
            assert forall|i: int| 0 <= i < rest.len() implies rest[i].0 != nk by {
                let j = choose|j: int|
                    0 <= j < p.len() && p[j].0 != removed && shifted_index(p[j].0, removed)
                        == rest[i].0;
                assert(s[j] == p[j]);
                assert(s[j].0 != s[s.len() - 1].0);
            }
            assert forall|i: int| 0 <= i < r.len() implies {
                &&& #[trigger] r[i].0 < count - 1
                &&& r[i].1.shard_index == r[i].0
                &&& exists|j: int|
                    0 <= j < s.len() && s[j].0 != removed && shifted_index(s[j].0, removed) == r[i].0
            } by {
                if i < rest.len() {
                    assert(r[i] == rest[i]);
                    let j = choose|j: int|
                        0 <= j < p.len() && p[j].0 != removed && shifted_index(p[j].0, removed)
                            == rest[i].0;
                    assert(s[j] == p[j]);
                } else {
                    assert(s[s.len() - 1].0 == k);
                }
            }
        } else {
            assert forall|i: int| 0 <= i < rest.len() implies {
                &&& #[trigger] rest[i].0 < count - 1
                &&& rest[i].1.shard_index == rest[i].0
                &&& exists|j: int|
                    0 <= j < s.len() && s[j].0 != removed && shifted_index(s[j].0, removed)
                        == rest[i].0
            } by {
                let j = choose|j: int|
                    0 <= j < p.len() && p[j].0 != removed && shifted_index(p[j].0, removed)
                        == rest[i].0;
                assert(s[j] == p[j]);
            }
        }
    }
}

/// After backend `removed` leaves a pool of `count` backends, an entry whose
/// shards name distinct backends below `count` names distinct backends below
/// `count - 1`, each shard's index agrees with its backend, and each shard
/// came from a shard on a backend other than the removed one.
pub proof fn law_reindexed_shards_fit_the_smaller_pool(
    s: Seq<(usize, ShardLocation)>,
    removed: usize,
    count: usize,
)
    requires
        keys_distinct(s),
        forall|i: int| 0 <= i < s.len() ==> #[trigger] s[i].0 < count,
        removed < count,
    ensures
        keys_distinct(shards_without(s, removed)),
        forall|i: int|
            0 <= i < shards_without(s, removed).len() ==> {
                &&& #[trigger] shards_without(s, removed)[i].0 < count - 1
                &&& shards_without(s, removed)[i].1.shard_index == shards_without(s, removed)[i].0
                &&& exists|j: int|
                    0 <= j < s.len() && s[j].0 != removed && shifted_index(s[j].0, removed)
                        == shards_without(s, removed)[i].0
            },
{
    lemma_shards_without_facts(s, removed, count as int);
}

/// How a backend's shards are handled before it leaves the pool.
#[derive(Debug, Clone, Copy, PartialEq, Eq, Structural)]
pub enum ShardMigration {
    /// Nothing to move: the backend holds no shard, or the mode keeps none.
    Nothing,
    /// A mirror: every other backend already holds the data.
    MirrorHoldsData,
    /// Erasure coding: the shards are rebuilt on the backend `target`.
    Rebuild { target: usize },
}

/// The health of a backend, as the pool last saw it.
#[derive(Debug, Clone, Copy, PartialEq, Eq, Structural)]
pub enum HealthStatus {
    /// Working.
    Healthy,
    /// Working with errors.
    Degraded,
    /// Not working.
    Unhealthy,
}

/// The first backend other than `index` that is known to be healthy.
pub open spec fn first_healthy_other(health: Seq<Option<HealthStatus>>, index: usize) -> Option<usize>
    decreases health.len(),
{
    if health.len() == 0 {
        None
    } else {
        match first_healthy_other(health.drop_last(), index) {
            Some(t) => Some(t),
            None => if (health.len() - 1) as usize != index && health.last() == Some(
                HealthStatus::Healthy,
            ) {
                Some((health.len() - 1) as usize)
            } else {
                None
            },
        }
    }
}

/// How the shards of the backend at `index` are handled before it leaves,
/// given the pool's mode, whether it holds any shard, and the health of
/// every backend.
pub open spec fn shard_migration(
    mode_type: Seq<char>,
    holds_shards: bool,
    health: Seq<Option<HealthStatus>>,
    index: usize,
) -> Result<ShardMigration, RaidError> {
    if !holds_shards {
        Ok(ShardMigration::Nothing)
    } else if mode_type == "mirror"@ {
        Ok(ShardMigration::MirrorHoldsData)
    } else if mode_type == "erasure"@ {
        match first_healthy_other(health, index) {
            Some(t) => Ok(ShardMigration::Rebuild { target: t }),
            None => Err(RaidError::NoHealthyTarget),
        }
    } else {
        Ok(ShardMigration::Nothing)
    }
}

/// Decide how the shards of the backend at `index` are handled before it
/// leaves the pool.
pub fn plan_shard_migration(
    mode: &RaidModeConfig,
    holds_shards: bool,
    health: &Vec<Option<HealthStatus>>,
    index: usize,
) -> (r: Result<ShardMigration, RaidError>)
    ensures
        r == shard_migration(mode.mode_type@, holds_shards, health@, index),
{
    if !holds_shards {
        return Ok(ShardMigration::Nothing);
    }
    if is_mode(&mode.mode_type, "mirror") {
        return Ok(ShardMigration::MirrorHoldsData);
    }
    if !is_mode(&mode.mode_type, "erasure") {
        return Ok(ShardMigration::Nothing);
    }
    let n = health.len();
    let mut i: usize = 0;
    while i < n
        invariant
            i <= n == health@.len(),
            holds_shards,
            mode.mode_type@ == "erasure"@,
            mode.mode_type@ != "mirror"@,
            first_healthy_other(health@.take(i as int), index) is None,
        decreases n - i,
    {
        assert(health@.take(i + 1).drop_last() =~= health@.take(i as int));
        if i != index && health[i] == Some(HealthStatus::Healthy) {
            assert(first_healthy_other(health@.take(i + 1), index) == Some(i));
            proof {
                lemma_first_healthy_prefix(health@, index, i + 1);
            }
            return Ok(ShardMigration::Rebuild { target: i });
        }
        i = i + 1;
    }
    assert(health@.take(n as int) =~= health@);
    Err(RaidError::NoHealthyTarget)
}

proof fn lemma_first_healthy_prefix(health: Seq<Option<HealthStatus>>, index: usize, k: int)
    requires
        0 <= k <= health.len(),
        first_healthy_other(health.take(k), index) is Some,
    ensures
        first_healthy_other(health, index) == first_healthy_other(health.take(k), index),
    decreases health.len() - k,
{
    if k < health.len() {
        assert(health.take(k + 1).drop_last() =~= health.take(k));
        lemma_first_healthy_prefix(health, index, k + 1);
    } else {
        assert(health.take(k) =~= health);
    }
}

proof fn lemma_first_healthy_other(health: Seq<Option<HealthStatus>>, index: usize)
    requires
        health.len() <= usize::MAX,
    ensures
        first_healthy_other(health, index) matches Some(t) ==> {
            &&& t < health.len()
            &&& t != index
            &&& health[t as int] == Some(HealthStatus::Healthy)
            &&& forall|i: int|
                0 <= i < t && i != index ==> health[i] != Some(HealthStatus::Healthy)
        },
        first_healthy_other(health, index) is None ==> forall|i: int|
            0 <= i < health.len() && i != index ==> health[i] != Some(HealthStatus::Healthy),
    decreases health.len(),
{
    if health.len() > 0 {
        let p = health.drop_last();
        let last: int = health.len() - 1;
        lemma_first_healthy_other(p, index);
        assert forall|i: int| 0 <= i < p.len() implies p[i] == health[i] by {}
        assert(health.last() == health[last]);
        assert(last as usize == last);
        match first_healthy_other(p, index) {
            Some(t) => {
                assert(first_healthy_other(health, index) == Some(t));
            },
            None => {
                if last as usize != index && health[last] == Some(HealthStatus::Healthy) {
                    assert(first_healthy_other(health, index) == Some(last as usize));
                } else {
                    assert(first_healthy_other(health, index) is None);
                }
            },
        }
    }
}

/// An erasure-coded pool moves a leaving backend's shards only onto another
/// backend, one that is healthy, the first such in index order.
pub proof fn law_shards_move_to_first_healthy_other_backend(
    mode_type: Seq<char>,
    holds_shards: bool,
    health: Seq<Option<HealthStatus>>,
    index: usize,
)
    requires
        health.len() <= usize::MAX,
    ensures
        shard_migration(mode_type, holds_shards, health, index) matches Ok(
            ShardMigration::Rebuild { target },
        ) ==> {
            &&& target < health.len()
            &&& target != index
            &&& health[target as int] == Some(HealthStatus::Healthy)
            &&& forall|i: int|
                0 <= i < target && i != index ==> health[i] != Some(HealthStatus::Healthy)
        },
        shard_migration(mode_type, holds_shards, health, index) == Err::<ShardMigration, RaidError>(
            RaidError::NoHealthyTarget,
        ) ==> forall|i: int|
            0 <= i < health.len() && i != index ==> health[i] != Some(HealthStatus::Healthy),
{
    lemma_first_healthy_other(health, index);
}

proof fn lemma_first_unhealthy(health: Seq<Option<HealthStatus>>)
    requires
        health.len() <= usize::MAX,
    ensures
        first_unhealthy(health) matches Some(t) ==> {
            &&& t < health.len()
            &&& health[t as int] matches Some(h) && h != HealthStatus::Healthy
            &&& forall|i: int|
                0 <= i < t ==> (health[i] is None || health[i] == Some(HealthStatus::Healthy))
        },
        first_unhealthy(health) is None ==> forall|i: int|
            0 <= i < health.len() ==> (health[i] is None || health[i] == Some(
                HealthStatus::Healthy,
            )),
    decreases health.len(),
{
    if health.len() > 0 {
        let p = health.drop_last();
        let last: int = health.len() - 1;
        lemma_first_unhealthy(p);
        assert forall|i: int| 0 <= i < p.len() implies p[i] == health[i] by {}
        assert(health.last() == health[last]);
        assert(last as usize == last);
        match first_unhealthy(p) {
            Some(t) => {
                assert(first_unhealthy(health) == Some(t));
            },
            None => {
                match health[last] {
                    Some(h) => {
                        if h != HealthStatus::Healthy {
                            assert(first_unhealthy(health) == Some(last as usize));
                        } else {
                            assert(first_unhealthy(health) is None);
                        }
                    },
                    None => {
                        assert(first_unhealthy(health) is None);
                    },
                }
            },
        }
    }
}

/// Without a requested target, a rebuild targets the first backend known to
/// be unhealthy or degraded; it refuses only when every known backend is
/// healthy.
pub proof fn law_default_rebuild_target_is_first_unhealthy(health: Seq<Option<HealthStatus>>)
    requires
        health.len() <= usize::MAX,
    ensures
        rebuild_target_of(None, health) matches Ok(t) ==> {
            &&& t < health.len()
            &&& health[t as int] matches Some(h) && h != HealthStatus::Healthy
            &&& forall|i: int|
                0 <= i < t ==> (health[i] is None || health[i] == Some(HealthStatus::Healthy))
        },
        rebuild_target_of(None, health) == Err::<usize, RaidError>(RaidError::AllHealthy) ==> forall|
            i: int,
        |
            0 <= i < health.len() ==> (health[i] is None || health[i] == Some(
                HealthStatus::Healthy,
            )),
{
    lemma_first_unhealthy(health);
}

/// A shard move that failed for some files stops the removal.
pub fn check_shard_migration(failed: usize) -> (r: Result<(), RaidError>)
    ensures
        r == if failed > 0 {
            Err::<(), RaidError>(RaidError::MigrationFailures(failed))
        } else {
            Ok::<(), RaidError>(())
        },
{
    if failed > 0 {
        Err(RaidError::MigrationFailures(failed))
    } else {
        Ok(())
    }
}

/// Take the backend at `index` out of the configuration; the ones after it
/// move down by one.
pub fn remove_backend_entry(cfg: &mut RaidConfig, index: usize) -> (e: BackendEntry)
    requires
        index < old(cfg).backends@.len(),
    ensures
        e == old(cfg).backends@[index as int],
        final(cfg).backends@ == old(cfg).backends@.remove(index as int),
        final(cfg).mode == old(cfg).mode,
{
    cfg.backends.remove(index)
}

/// Put a removed backend back at `index`, as when saving the configuration
/// after a removal fails.
pub fn restore_backend_entry(cfg: &mut RaidConfig, index: usize, entry: BackendEntry)
    requires
        index <= old(cfg).backends@.len(),
    ensures
        final(cfg).backends@ == old(cfg).backends@.insert(index as int, entry),
        final(cfg).mode == old(cfg).mode,
{
    cfg.backends.insert(index, entry);
}

/// Putting back the backend that was taken out, where it was, restores the
/// configuration's backends: a failed removal leaves nothing changed.
pub proof fn law_restore_undoes_remove(backends: Seq<BackendEntry>, index: int)
    requires
        0 <= index < backends.len(),
    ensures
        backends.remove(index).insert(index, backends[index]) == backends,
{
    assert(backends.remove(index).insert(index, backends[index]) =~= backends);
}

/// Which backend a rebuild targets: the one asked for, if the pool has it,
/// otherwise the first whose health is known and not healthy; the pool must
/// have at least two backends.
pub open spec fn rebuild_target_of(target: Option<usize>, health: Seq<Option<HealthStatus>>) -> Result<
    usize,
    RaidError,
> {
    if health.len() < 2 {
        Err(RaidError::RebuildNeedsTwoBackends)
    } else {
        match target {
            Some(i) => if i >= health.len() {
                Err(RaidError::TargetOutOfRange { index: i, backends: health.len() as usize })
            } else {
                Ok(i)
            },
            None => match first_unhealthy(health) {
                Some(i) => Ok(i),
                None => Err(RaidError::AllHealthy),
            },
        }
    }
}

/// The first backend whose health is known and not healthy.
pub open spec fn first_unhealthy(health: Seq<Option<HealthStatus>>) -> Option<usize>
    decreases health.len(),
{
    if health.len() == 0 {
        None
    } else {
        match first_unhealthy(health.drop_last()) {
            Some(t) => Some(t),
            None => match health.last() {
                Some(h) => if h != HealthStatus::Healthy {
                    Some((health.len() - 1) as usize)
                } else {
                    None
                },
                None => None,
            },
        }
    }
}

proof fn lemma_first_unhealthy_prefix(health: Seq<Option<HealthStatus>>, k: int)
    requires
        0 <= k <= health.len(),
        first_unhealthy(health.take(k)) is Some,
    ensures
        first_unhealthy(health) == first_unhealthy(health.take(k)),
    decreases health.len() - k,
{
    if k < health.len() {
        assert(health.take(k + 1).drop_last() =~= health.take(k));
        lemma_first_unhealthy_prefix(health, k + 1);
    } else {
        assert(health.take(k) =~= health);
    }
}

/// A rebuild targets the backend asked for whenever it exists, whatever the
/// health of the pool (the first one included); one asked for beyond the
/// pool is refused with its index and the pool's size.
pub proof fn law_requested_rebuild_target_is_kept(target: usize, health: Seq<Option<HealthStatus>>)
    requires
        2 <= health.len() <= usize::MAX,
    ensures
        target < health.len() ==> rebuild_target_of(Some(target), health) == Ok::<
            usize,
            RaidError,
        >(target),
        target >= health.len() ==> rebuild_target_of(Some(target), health) == Err::<
            usize,
            RaidError,
        >(RaidError::TargetOutOfRange { index: target, backends: health.len() as usize }),
{
}

/// Choose the backend that a rebuild targets, from the requested one and the
/// health of every backend of the pool.
pub fn choose_rebuild_target(target: Option<usize>, health: &Vec<Option<HealthStatus>>) -> (r: Result<
    usize,
    RaidError,
>)
    ensures
        r == rebuild_target_of(target, health@),
{
    let n = health.len();
    if n < 2 {
        return Err(RaidError::RebuildNeedsTwoBackends);
    }
    match target {
        Some(i) => {
            if i >= n {
                return Err(RaidError::TargetOutOfRange { index: i, backends: n });
            }
            Ok(i)
        },
        None => {
            let mut i: usize = 0;
            while i < n
                invariant
                    2 <= n == health@.len(),
                    i <= n,
                    target is None,
                    first_unhealthy(health@.take(i as int)) is None,
                decreases n - i,
            {
                assert(health@.take(i + 1).drop_last() =~= health@.take(i as int));
                match health[i] {
                    Some(h) => {
                        if h != HealthStatus::Healthy {
                            assert(first_unhealthy(health@.take(i + 1)) == Some(i));
                            proof {
                                lemma_first_unhealthy_prefix(health@, i + 1);
                            }
                            return Ok(i);
                        }
                    },
                    None => {},
                }
                i = i + 1;
            }
            assert(health@.take(n as int) =~= health@);
            Err(RaidError::AllHealthy)
        },
    }
}

/// The shard indices of an entry's shards, in order.
pub open spec fn entry_shard_indices(s: Seq<(usize, ShardLocation)>) -> Seq<usize> {
    s.map_values(|p: (usize, ShardLocation)| p.1.shard_index)
}

/// The shard indices of all shards of all entries, entry by entry.
pub open spec fn all_shard_indices(entries: Seq<ShardEntry>) -> Seq<usize>
    decreases entries.len(),
{
    if entries.len() == 0 {
        seq![]
    } else {
        all_shard_indices(entries.drop_last()) + entry_shard_indices(entries.last().shards@)
    }
}

/// How often `b` occurs in `s`.
pub open spec fn occurrences(s: Seq<usize>, b: usize) -> nat
    decreases s.len(),
{
    if s.len() == 0 {
        0
    } else {
        occurrences(s.drop_last(), b) + if s.last() == b {
            1nat
        } else {
            0nat
        }
    }
}

proof fn lemma_occurrences_bounded(s: Seq<usize>, b: usize)
    ensures
        occurrences(s, b) <= s.len(),
    decreases s.len(),
{
    if s.len() > 0 {
        lemma_occurrences_bounded(s.drop_last(), b);
    }
}

proof fn lemma_all_shard_indices_prefix(entries: Seq<ShardEntry>, i: int)
    requires
        0 <= i <= entries.len(),
    ensures
        all_shard_indices(entries.take(i)).len() <= all_shard_indices(entries).len(),
    decreases entries.len() - i,
{
    if i < entries.len() {
        lemma_all_shard_indices_prefix(entries, i + 1);
        assert(entries.take(i + 1).drop_last() =~= entries.take(i));
    } else {
        assert(entries.take(i) =~= entries);
    }
}

/// Every shard of every file is counted, file by file: the shard indices of
/// a map with one more file are those of the map followed by that file's
/// shard indices, in its order, and a map without files has none.
pub proof fn law_every_file_is_counted(entries: Seq<ShardEntry>, e: ShardEntry)
    ensures
        all_shard_indices(Seq::<ShardEntry>::empty()) == Seq::<usize>::empty(),
        all_shard_indices(entries.push(e)) == all_shard_indices(entries) + e.shards@.map_values(
            |p: (usize, ShardLocation)| p.1.shard_index,
        ),
        all_shard_indices(entries.push(e)).len() == all_shard_indices(entries).len()
            + e.shards@.len(),
{
    assert(entries.push(e).drop_last() =~= entries);
}

/// The count of `b` in `s` is the number of its places that hold `b`.
pub proof fn law_occurrences_count_the_places(s: Seq<usize>, b: usize)
    ensures
        occurrences(s, b) == s.filter(|x: usize| x == b).len(),
    decreases s.len(),
{
    reveal(Seq::filter);
    if s.len() > 0 {
        law_occurrences_count_the_places(s.drop_last(), b);
    }
}

/// How many shards each of `backend_count` backends holds, by shard index;
/// shards whose index is not below `backend_count` are not counted.
pub fn shards_per_backend(map: &ShardMap, backend_count: usize) -> (counts: Vec<usize>)
    requires
        all_shard_indices(map.entries@).len() <= usize::MAX,
    ensures
        counts@.len() == backend_count,
        forall|b: int|
            0 <= b < backend_count ==> #[trigger] counts@[b] as nat == occurrences(
                all_shard_indices(map.entries@),
                b as usize,
            ),
{
    let mut counts: Vec<usize> = Vec::new();
    let mut b: usize = 0;
    while b < backend_count
        invariant
            b <= backend_count,
            counts@.len() == b,
            forall|c: int| 0 <= c < b ==> #[trigger] counts@[c] == 0,
        decreases backend_count - b,
    {
        counts.push(0);
        b = b + 1;
    }
    let ghost all = all_shard_indices(map.entries@);
    let n = map.entries.len();
    let mut i: usize = 0;
    assert(map.entries@.take(0) =~= Seq::<ShardEntry>::empty());
    while i < n
        invariant
            i <= n == map.entries@.len(),
            all == all_shard_indices(map.entries@),
            all.len() <= usize::MAX,
            counts@.len() == backend_count,
            forall|c: int|
                0 <= c < backend_count ==> #[trigger] counts@[c] as nat == occurrences(
                    all_shard_indices(map.entries@.take(i as int)),
                    c as usize,
                ),
        decreases n - i,
    {
        let entry = &map.entries[i];
        let ghost before = all_shard_indices(map.entries@.take(i as int));
        let ghost keys = entry_shard_indices(entry.shards@);
        proof {
            assert(map.entries@.take(i + 1).drop_last() =~= map.entries@.take(i as int));
            assert(all_shard_indices(map.entries@.take(i + 1)) == before + keys);
            lemma_all_shard_indices_prefix(map.entries@, i + 1);
        }
        let m = entry.shards.len();
        let mut j: usize = 0;
        assert(before + keys.take(0) =~= before);
        while j < m
            invariant
                i < n == map.entries@.len(),
                entry == map.entries@[i as int],
                keys == entry_shard_indices(entry.shards@),
                j <= m == entry.shards@.len(),
                (before + keys).len() <= usize::MAX,
                counts@.len() == backend_count,
                forall|c: int|
                    0 <= c < backend_count ==> #[trigger] counts@[c] as nat == occurrences(
                        before + keys.take(j as int),
                        c as usize,
                    ),
            decreases m - j,
        {
            let x = entry.shards[j].1.shard_index;
            let ghost prev = before + keys.take(j as int);
            proof {
                assert(before + keys.take(j + 1) =~= prev.push(x));
                assert((prev.push(x)).drop_last() =~= prev);
                lemma_occurrences_bounded(prev.push(x), x);
                assert(prev.push(x).len() <= (before + keys).len());
            }
            if x < backend_count {
                let c = counts[x];
                counts.set(x, c + 1);
            }
            j = j + 1;
        }
        assert(before + keys.take(m as int) =~= before + keys);
        i = i + 1;
    }
    assert(map.entries@.take(n as int) =~= map.entries@);
    counts
}

/// An erasure-coded pool configured with as many shards as it has backends
/// refuses to lose any backend: `raid configure` followed by a removal is
/// always refused for want of redundancy.
pub proof fn law_configured_erasure_pool_refuses_removal(
    data_shards: Option<usize>,
    parity_shards: Option<usize>,
    backends: usize,
    mode: RaidModeConfig,
    index: usize,
)
    requires
        requested_mode(RaidModeArg::Erasure, data_shards, parity_shards, backends) matches Ok((k, m))
            && mode.data_shards == k && mode.parity_shards == m && mode.mode_type@ == "erasure"@,
        index < backends,
    ensures
        removal_plan(mode, backends as nat, index as nat) matches Err(
            RaidError::InsufficientRedundancy { .. },
        ),
{
    reveal_strlit("mirror");
    reveal_strlit("erasure");
    assert("mirror"@ != "erasure"@) by {
        assert("mirror"@[0] != "erasure"@[0]);
    }
}

/// Removing the backend that was just added, from the end of the list,
/// gives back that backend and the previous list.
pub proof fn law_remove_undoes_add(backends: Seq<BackendEntry>, entry: BackendEntry)
    ensures
        backends.push(entry)[backends.len() as int] == entry,
        backends.push(entry).remove(backends.len() as int) == backends,
{
    assert(backends.push(entry).remove(backends.len() as int) =~= backends);
}

/// `n` copies of `c`.
pub open spec fn repeat_char(c: char, n: nat) -> Seq<char> {
    Seq::new(n, |i: int| c)
}

fn push_repeat(s: &mut String, c: char, n: usize)
    ensures
        final(s)@ == old(s)@ + repeat_char(c, n as nat),
{
    let mut i: usize = 0;
    while i < n
        invariant
            i <= n,
            s@ == old(s)@ + repeat_char(c, i as nat),
        decreases n - i,
    {
        s.push(c);
        assert(old(s)@ + repeat_char(c, (i + 1) as nat) =~= (old(s)@ + repeat_char(c, i as nat)).push(c));
        i = i + 1;
    }
}

/// The number of cells of the rebuild progress bar.
pub const PROGRESS_BAR_WIDTH: usize = 30;

/// The rebuild progress bar with `filled` of its cells done (at most all of
/// them): `=` cells ending in `>` while partly done, all `=` when done, all
/// blank when nothing is.
pub open spec fn progress_bar(filled: nat) -> Seq<char> {
    let f: nat = if filled > 30 {
        30
    } else {
        filled
    };
    if 0 < f && f < 30 {
        repeat_char('=', (f - 1) as nat) + seq!['>'] + repeat_char(' ', (30 - f) as nat)
    } else if f == 30 {
        repeat_char('=', 30)
    } else {
        repeat_char(' ', 30)
    }
}

/// Append the progress bar with `filled` cells done.
pub fn push_progress_bar(s: &mut String, filled: usize)
    ensures
        final(s)@ == old(s)@ + progress_bar(filled as nat),
{
    let f = if filled > PROGRESS_BAR_WIDTH {
        PROGRESS_BAR_WIDTH
    } else {
        filled
    };
    let empty = PROGRESS_BAR_WIDTH - f;
    let ghost start = s@;
    if f > 0 && f < PROGRESS_BAR_WIDTH {
        push_repeat(s, '=', f - 1);
        s.push('>');
        push_repeat(s, ' ', empty);
        assert(s@ =~= start + progress_bar(filled as nat));
    } else if f == PROGRESS_BAR_WIDTH {
        push_repeat(s, '=', PROGRESS_BAR_WIDTH);
    } else {
        push_repeat(s, ' ', PROGRESS_BAR_WIDTH);
    }
}

/// The `, ETA: …s` part of a progress line, when an estimate is known.
pub open spec fn eta_text(eta_secs: Option<u64>) -> Seq<char> {
    match eta_secs {
        Some(secs) => ", ETA: "@ + decimal(secs as nat) + "s"@,
        None => seq![],
    }
}

/// A rebuild progress line, which starts by returning the cursor so that it
/// overwrites the previous one: the bar, the percentage as given, the files
/// done (rebuilt, skipped or failed) of the total, and the estimate.
pub open spec fn progress_line_text(
    filled: nat,
    percent: Seq<char>,
    completed: nat,
    skipped: nat,
    failed: nat,
    total: nat,
    eta_secs: Option<u64>,
) -> Seq<char> {
    "\r["@ + progress_bar(filled) + "] "@ + percent + "% ("@ + decimal(completed + skipped + failed)
        + "/"@ + decimal(total) + " chunks"@ + eta_text(eta_secs) + ")"@
}

/// The rebuild progress line; `percent` is the percentage already written
/// as three right-aligned digits.
pub fn progress_line(
    filled: usize,
    percent: &str,
    completed: usize,
    skipped: usize,
    failed: usize,
    total: usize,
    eta_secs: Option<u64>,
) -> (line: String)
    ensures
        line@ == progress_line_text(
            filled as nat,
            percent@,
            completed as nat,
            skipped as nat,
            failed as nat,
            total as nat,
            eta_secs,
        ),
{
    let mut s = String::from_str("\r[");
    push_progress_bar(&mut s, filled);
    push_str(&mut s, "] ");
    push_str(&mut s, percent);
    push_str(&mut s, "% (");
    push_decimal(&mut s, completed as u128 + skipped as u128 + failed as u128);
    push_str(&mut s, "/");
    push_decimal(&mut s, total as u128);
    push_str(&mut s, " chunks");
    let ghost before_eta = s@;
    match eta_secs {
        Some(secs) => {
            push_str(&mut s, ", ETA: ");
            push_decimal(&mut s, secs as u128);
            push_str(&mut s, "s");
        },
        None => {},
    }
    assert(s@ =~= before_eta + eta_text(eta_secs));
    push_str(&mut s, ")");
    assert(s@ =~= progress_line_text(
        filled as nat,
        percent@,
        completed as nat,
        skipped as nat,
        failed as nat,
        total as nat,
        eta_secs,
    ));
    s
}

/// How a backend's health is shown; `Unknown` when it is not known.
pub open spec fn health_label_text(h: Option<HealthStatus>) -> Seq<char> {
    match h {
        Some(HealthStatus::Healthy) => "Healthy"@,
        Some(HealthStatus::Degraded) => "Degraded"@,
        Some(HealthStatus::Unhealthy) => "Unhealthy"@,
        None => "Unknown"@,
    }
}

/// How a backend's health is shown.
pub fn health_label(h: Option<HealthStatus>) -> (s: &'static str)
    ensures
        s@ == health_label_text(h),
{
    match h {
        Some(HealthStatus::Healthy) => "Healthy",
        Some(HealthStatus::Degraded) => "Degraded",
        Some(HealthStatus::Unhealthy) => "Unhealthy",
        None => "Unknown",
    }
}

/// `s` padded on the right with spaces to at least `width` characters, as
/// `{:<width}` pads.
pub open spec fn pad_right(s: Seq<char>, width: nat) -> Seq<char> {
    if s.len() >= width {
        s
    } else {
        s + repeat_char(' ', (width - s.len()) as nat)
    }
}

fn push_padded(s: &mut String, t: &str, width: usize)
    ensures
        final(s)@ == old(s)@ + pad_right(t@, width as nat),
{
    let n = t.unicode_len();
    push_str(s, t);
    if n < width {
        push_repeat(s, ' ', width - n);
    } else {
        assert(old(s)@ + t@ == old(s)@ + pad_right(t@, width as nat));
    }
    assert(s@ =~= old(s)@ + pad_right(t@, width as nat));
}

/// A row of the backend table of `raid status`.
pub open spec fn status_row_text(
    index: Seq<char>,
    provider: Seq<char>,
    health: Seq<char>,
    shards: Seq<char>,
    last: Seq<char>,
) -> Seq<char> {
    "  "@ + pad_right(index, 6) + " "@ + pad_right(provider, 12) + " "@ + pad_right(health, 10) + " "@
        + pad_right(shards, 8) + " "@ + last
}

/// The heading of the backend table of `raid status`.
pub fn status_header() -> (s: String)
    ensures
        s@ == status_row_text("Index"@, "Provider"@, "Health"@, "Shards"@, "Last Success"@),
{
    let mut s = String::from_str("  ");
    push_padded(&mut s, "Index", 6);
    push_str(&mut s, " ");
    push_padded(&mut s, "Provider", 12);
    push_str(&mut s, " ");
    push_padded(&mut s, "Health", 10);
    push_str(&mut s, " ");
    push_padded(&mut s, "Shards", 8);
    push_str(&mut s, " ");
    push_str(&mut s, "Last Success");
    assert(s@ =~= status_row_text("Index"@, "Provider"@, "Health"@, "Shards"@, "Last Success"@));
    s
}

/// The row of the backend table of `raid status` for the backend at `index`.
pub fn status_row(index: usize, provider: &str, health: &str, shards: usize, last_success: &str) -> (s:
    String)
    ensures
        s@ == status_row_text(
            decimal(index as nat),
            provider@,
            health@,
            decimal(shards as nat),
            last_success@,
        ),
{
    let index_text = crate::text::decimal_string(index as u128);
    let shards_text = crate::text::decimal_string(shards as u128);
    let mut s = String::from_str("  ");
    push_padded(&mut s, index_text.as_str(), 6);
    push_str(&mut s, " ");
    push_padded(&mut s, provider, 12);
    push_str(&mut s, " ");
    push_padded(&mut s, health, 10);
    push_str(&mut s, " ");
    push_padded(&mut s, shards_text.as_str(), 8);
    push_str(&mut s, " ");
    push_str(&mut s, last_success);
    assert(s@ =~= status_row_text(
        decimal(index as nat),
        provider@,
        health@,
        decimal(shards as nat),
        last_success@,
    ));
    s
}

/// How `raid status` describes the pool's mode; missing shard counts show
/// as 0.
pub open spec fn mode_line_text(mode: RaidModeConfig) -> Seq<char> {
    if mode.mode_type@ == "mirror"@ {
        "  Mode: Mirror (RAID 1)"@
    } else if mode.mode_type@ == "erasure"@ {
        "  Mode: Erasure (RAID 5/6) \u{2014} k="@ + decimal(
            match mode.data_shards {
                Some(k) => k as nat,
                None => 0,
            },
        ) + ", m="@ + decimal(
            match mode.parity_shards {
                Some(m) => m as nat,
                None => 0,
            },
        )
    } else {
        "  Mode: "@ + mode.mode_type@
    }
}

/// The line of `raid status` that describes the pool's mode.
pub fn mode_line(mode: &RaidModeConfig) -> (s: String)
    ensures
        s@ == mode_line_text(*mode),
{
    if is_mode(&mode.mode_type, "mirror") {
        String::from_str("  Mode: Mirror (RAID 1)")
    } else if is_mode(&mode.mode_type, "erasure") {
        let k: usize = match mode.data_shards {
            Some(k) => k,
            None => 0,
        };
        let m: usize = match mode.parity_shards {
            Some(m) => m,
            None => 0,
        };
        let mut s = String::from_str("  Mode: Erasure (RAID 5/6) \u{2014} k=");
        push_decimal(&mut s, k as u128);
        push_str(&mut s, ", m=");
        push_decimal(&mut s, m as u128);
        s
    } else {
        let mut s = String::from_str("  Mode: ");
        push_str(&mut s, mode.mode_type.as_str());
        s
    }
}

} // verus!
