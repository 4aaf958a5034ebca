//! Runtime configuration and its defaults.
use vstd::prelude::*;

verus! {

/// All of Guardian's tunable settings.
#[derive(Debug, Clone)]
pub struct GuardianConfig {
    pub gate: GateConfig,
    pub kill_switch: KillSwitchConfig,
    pub rollback: RollbackConfig,
    pub sensors: SensorConfig,
}

/// Decision thresholds, in ten-thousandths of a risk score.
#[derive(Debug, Clone, Copy)]
pub struct GateConfig {
    /// Below this score: allow silently.
    pub allow_threshold: u32,
    /// Below this score (and at or above the allow threshold): allow with a snapshot.
    /// At or above it (and below the block threshold): ask the user.
    pub log_threshold: u32,
    /// At or above this score (and below the block threshold): ask the user.
    pub confirm_threshold: u32,
    /// At or above this score: block unconditionally.
    pub block_threshold: u32,
    /// Seconds before a pending confirmation is denied.
    pub confirm_timeout_secs: u64,
}

/// Anomaly limits that trigger the kill switch.
#[derive(Debug, Clone, Copy)]
pub struct KillSwitchConfig {
    pub file_ops_per_minute: u32,
    pub network_reqs_per_minute: u32,
}

/// Rollback vault settings.
#[derive(Debug, Clone)]
pub struct RollbackConfig {
    /// Files larger than this many MiB are recorded by metadata only.
    pub max_file_size_mb: u64,
    /// Hours before a snapshot expires.
    pub retention_hours: u64,
    pub vault_path: String,
}

/// Which folders the file-system sensor watches and how often processes are polled.
#[derive(Debug, Clone)]
pub struct SensorConfig {
    pub watch_paths: Vec<String>,
    pub poll_interval_secs: u64,
}

impl GateConfig {
    /// The default thresholds: 0.30, 0.60, 0.80, 0.95, and a 30-second timeout.
    pub open spec fn is_default(self) -> bool {
        &&& self.allow_threshold == 3000
        &&& self.log_threshold == 6000
        &&& self.confirm_threshold == 8000
        &&& self.block_threshold == 9500
        &&& self.confirm_timeout_secs == 30
    }
}

impl GuardianConfig {
    /// The built-in defaults.
    pub open spec fn is_default(self) -> bool {
        &&& self.gate.is_default()
        &&& self.kill_switch.file_ops_per_minute == 200
        &&& self.kill_switch.network_reqs_per_minute == 50
        &&& self.rollback.max_file_size_mb == 100
        &&& self.rollback.retention_hours == 48
        &&& self.rollback.vault_path@ == ".guardian_vault"@
        &&& self.sensors.watch_paths@.len() == 4
        &&& self.sensors.watch_paths@[0]@ == "C:/Users/tester/Documents"@
        &&& self.sensors.watch_paths@[1]@ == "C:/Users/tester/Desktop"@
        &&& self.sensors.watch_paths@[2]@ == "C:/Users/tester/Downloads"@
        &&& self.sensors.watch_paths@[3]@ == "C:/Users/tester/test_for_gAI"@
        &&& self.sensors.poll_interval_secs == 3
    }
}

impl Default for GuardianConfig {
    fn default() -> (r: Self)
        ensures
            r.is_default(),
    {
        let mut watch_paths: Vec<String> = Vec::new();
        watch_paths.push(String::from_str("C:/Users/tester/Documents"));
        watch_paths.push(String::from_str("C:/Users/tester/Desktop"));
        watch_paths.push(String::from_str("C:/Users/tester/Downloads"));
        watch_paths.push(String::from_str("C:/Users/tester/test_for_gAI"));
        GuardianConfig {
            gate: GateConfig {
                allow_threshold: 3000,
                log_threshold: 6000,
                confirm_threshold: 8000,
                block_threshold: 9500,
                confirm_timeout_secs: 30,
            },
            kill_switch: KillSwitchConfig { file_ops_per_minute: 200, network_reqs_per_minute: 50 },
            rollback: RollbackConfig {
                max_file_size_mb: 100,
                retention_hours: 48,
                vault_path: String::from_str(".guardian_vault"),
            },
            sensors: SensorConfig { watch_paths, poll_interval_secs: 3 },
        }
    }
}

/// The default decision thresholds are strictly increasing: allow < log < confirm < block.
pub proof fn default_thresholds_ordered(c: GateConfig)
    requires
        c.is_default(),
    ensures
        c.allow_threshold < c.log_threshold < c.confirm_threshold < c.block_threshold,
{
}

} // verus!
