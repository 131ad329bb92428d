//! Cluster-wide settings and the consensus engine's timing configuration
//! made from them.

use vstd::prelude::*;
use vstd::string::StringExecFns;

verus! {

/// Settings that are the same on every node and never change.
#[derive(Clone, Debug, PartialEq, Eq)]
pub struct Settings {
    pub cluster_name: String,
    /// Milliseconds.
    pub election_timeout_min: u64,
    /// Milliseconds.
    pub election_timeout_max: u64,
    /// Milliseconds.
    pub heartbeat_interval: u64,
    /// Milliseconds.
    pub install_snapshot_timeout: u64,
}

pub const DEFAULT_CLUSTER_NAME: &'static str = "cluster";

pub const DEFAULT_ELECTION_TIMEOUT_MIN: u64 = 150;

pub const DEFAULT_ELECTION_TIMEOUT_MAX: u64 = 300;

pub const DEFAULT_HEARTBEAT_INTERVAL: u64 = 50;

pub const DEFAULT_INSTALL_SNAPSHOT_TIMEOUT: u64 = 120;

/// Why the consensus engine refuses a configuration.
#[derive(Clone, Copy, Debug, PartialEq, Eq, Structural)]
pub enum ConfigError {
    /// The least election timeout is not below the greatest.
    ElectionTimeout { min: u64, max: u64 },
    /// The least election timeout is not above the heartbeat interval.
    ElectionTimeoutLTHeartBeat { election_timeout_min: u64, heartbeat_interval: u64 },
    /// A payload may hold no entry at all.
    MaxPayloadIs0,
    /// The engine gave a reason that has to do with none of the timeouts.
    Other,
}

/// The timing configuration that the consensus engine is started with.
#[derive(Clone, Debug, PartialEq, Eq)]
pub struct RaftConfig {
    pub cluster_name: String,
    pub election_timeout_min: u64,
    pub election_timeout_max: u64,
    pub heartbeat_interval: u64,
    pub install_snapshot_timeout: u64,
}

/// The engine's verdict on three timeouts: the least election timeout must
/// be below the greatest and above the heartbeat interval. It looks at the
/// election timeouts first.
pub open spec fn timeouts_checked(
    election_timeout_min: u64,
    election_timeout_max: u64,
    heartbeat_interval: u64,
) -> Result<(), ConfigError> {
    if election_timeout_min >= election_timeout_max {
        Err(ConfigError::ElectionTimeout { min: election_timeout_min, max: election_timeout_max })
    } else if election_timeout_min <= heartbeat_interval {
        Err(ConfigError::ElectionTimeoutLTHeartBeat { election_timeout_min, heartbeat_interval })
    } else {
        Ok(())
    }
}

/// Calls `openraft::Config::validate` on the engine's default configuration
/// with the three timeouts set. `validate` refuses a least election timeout
/// that is not below the greatest, then one that is not above the heartbeat
/// interval, then a payload limit of 0, which the default (300) is not; it
/// accepts everything else.
#[verifier::external_body]
fn validate_timeouts(
    election_timeout_min: u64,
    election_timeout_max: u64,
    heartbeat_interval: u64,
) -> (result: Result<(), ConfigError>)
    ensures
        result == timeouts_checked(election_timeout_min, election_timeout_max, heartbeat_interval),
{
    let config = openraft::Config { election_timeout_min, election_timeout_max, heartbeat_interval, ..Default::default() };
    match config.validate() {
        Ok(_) => Ok(()),
        Err(openraft::ConfigError::ElectionTimeout { min, max }) => Err(ConfigError::ElectionTimeout { min, max }),
        Err(openraft::ConfigError::ElectionTimeoutLTHeartBeat { election_timeout_min, heartbeat_interval }) => Err(ConfigError::ElectionTimeoutLTHeartBeat { election_timeout_min, heartbeat_interval }),
        Err(openraft::ConfigError::MaxPayloadIs0) => Err(ConfigError::MaxPayloadIs0),
        Err(_) => Err(ConfigError::Other),
    }
}

/// The configuration for the given name and timeouts, if the engine accepts
/// the timeouts.
pub fn checked_raft_config(
    cluster_name: String,
    election_timeout_min: u64,
    election_timeout_max: u64,
    heartbeat_interval: u64,
    install_snapshot_timeout: u64,
) -> (result: Result<RaftConfig, ConfigError>)
    ensures
        match result {
            Ok(config) => {
                &&& timeouts_checked(election_timeout_min, election_timeout_max, heartbeat_interval)
                    is Ok
                &&& config == (RaftConfig {
                    cluster_name,
                    election_timeout_min,
                    election_timeout_max,
                    heartbeat_interval,
                    install_snapshot_timeout,
                })
            },
            Err(e) => timeouts_checked(election_timeout_min, election_timeout_max, heartbeat_interval)
                == Err::<(), ConfigError>(e),
        },
{
    match validate_timeouts(election_timeout_min, election_timeout_max, heartbeat_interval) {
        Ok(()) => Ok(
            RaftConfig {
                cluster_name,
                election_timeout_min,
                election_timeout_max,
                heartbeat_interval,
                install_snapshot_timeout,
            },
        ),
        Err(e) => Err(e),
    }
}

impl Settings {
    /// The settings of a cluster that configures nothing: the name
    /// `cluster`, election timeouts from 150 to 300 ms, a heartbeat every
    /// 50 ms and 120 ms for a snapshot segment.
    pub fn new() -> (settings: Settings)
        ensures
            settings.cluster_name@ == DEFAULT_CLUSTER_NAME@,
            settings.election_timeout_min == DEFAULT_ELECTION_TIMEOUT_MIN,
            settings.election_timeout_max == DEFAULT_ELECTION_TIMEOUT_MAX,
            settings.heartbeat_interval == DEFAULT_HEARTBEAT_INTERVAL,
            settings.install_snapshot_timeout == DEFAULT_INSTALL_SNAPSHOT_TIMEOUT,
    {
        Settings {
            cluster_name: String::from_str(DEFAULT_CLUSTER_NAME),
            election_timeout_min: DEFAULT_ELECTION_TIMEOUT_MIN,
            election_timeout_max: DEFAULT_ELECTION_TIMEOUT_MAX,
            heartbeat_interval: DEFAULT_HEARTBEAT_INTERVAL,
            install_snapshot_timeout: DEFAULT_INSTALL_SNAPSHOT_TIMEOUT,
        }
    }

    /// The engine's configuration for these settings, or the engine's reason
    /// to refuse them.
    pub fn raft_config(&self) -> (result: Result<RaftConfig, ConfigError>)
        ensures
            match result {
                Ok(config) => {
                    &&& timeouts_checked(
                        self.election_timeout_min,
                        self.election_timeout_max,
                        self.heartbeat_interval,
                    ) is Ok
                    &&& config.cluster_name@ == self.cluster_name@
                    &&& config.election_timeout_min == self.election_timeout_min
                    &&& config.election_timeout_max == self.election_timeout_max
                    &&& config.heartbeat_interval == self.heartbeat_interval
                    &&& config.install_snapshot_timeout == self.install_snapshot_timeout
                },
                Err(e) => timeouts_checked(
                    self.election_timeout_min,
                    self.election_timeout_max,
                    self.heartbeat_interval,
                ) == Err::<(), ConfigError>(e),
            },
    {
        checked_raft_config(
            self.cluster_name.clone(),
            self.election_timeout_min,
            self.election_timeout_max,
            self.heartbeat_interval,
            self.install_snapshot_timeout,
        )
    }
}

} // verus!
