//! The configuration of the bot and the rule by which a stored
//! configuration is kept or replaced.

use vstd::prelude::*;
use crate::commands::config::CommandConfig;
use crate::listener::config::ListenerConfig;

verus! {

/// The version of the program that wrote a configuration.
#[derive(Debug, Clone, PartialEq, Eq)]
pub struct Version {
    pub major: u64,
    pub minor: u64,
    pub patch: u64,
    /// What stands behind a `-`, or nothing.
    pub pre: String,
    /// What stands behind a `+`, or nothing.
    pub build: String,
}

impl Version {
    /// Whether two versions agree in every part.
    pub open spec fn same(self, other: Version) -> bool {
        &&& self.major == other.major
        &&& self.minor == other.minor
        &&& self.patch == other.patch
        &&& self.pre@ == other.pre@
        &&& self.build@ == other.build@
    }

    /// Tests whether two versions agree in every part.
    pub fn same_as(&self, other: &Version) -> (same: bool)
        ensures
            same == self.same(*other),
    {
        self.major == other.major && self.minor == other.minor && self.patch == other.patch
            && self.pre == other.pre && self.build == other.build
    }
}

/// The configuration of the bot.
#[derive(Debug, Clone, PartialEq, Eq)]
pub struct Config {
    /// The version of the program that wrote the configuration.
    pub version: Version,
    pub listener_config: ListenerConfig,
    pub command_config: CommandConfig,
}

/// The configuration that the bot runs with.
#[derive(Debug, Clone, PartialEq, Eq)]
pub struct Loaded {
    pub config: Config,
    /// Whether the configuration is to be written to the store.
    pub persist: bool,
}

impl Config {
    /// The configuration that this version of the program starts with:
    /// everything enabled, with the default formats.
    pub fn new(version: Version) -> (config: Config)
        ensures
            config.version == version,
            config.listener_config.eidolon_hunts.enabled,
            config.listener_config.eidolon_hunts.format@
                == ListenerConfig::default_eidolon_hunts_format(),
            config.listener_config.s_tier_arbitrations.enabled,
            config.listener_config.s_tier_arbitrations.format@
                == ListenerConfig::default_s_tier_arbitrations_format(),
            config.listener_config.meta_relics.enabled,
            config.listener_config.meta_relics.format@
                == ListenerConfig::default_meta_relics_format(),
            config.listener_config.steel_path_disruption_fissures.enabled,
            config.listener_config.steel_path_disruption_fissures.format@
                == ListenerConfig::default_steel_path_disruption_fissures_format(),
            config.command_config.average_command.enabled,
            config.command_config.average_command.format@
                == CommandConfig::default_average_format(),
    {
        Config {
            version,
            listener_config: ListenerConfig::default(),
            command_config: CommandConfig::default(),
        }
    }

    /// Whether a stored configuration is kept: there is one, and this
    /// version of the program wrote it.
    pub open spec fn kept(persisted: Option<Config>, defaults: Config) -> bool {
        persisted matches Some(stored) && stored.version.same(defaults.version)
    }

    /// Chooses between the stored configuration and the defaults.
    ///
    /// A stored configuration of this version is kept as it is. One of any
    /// other version is dropped as a whole for the defaults, with nothing
    /// carried over, and so is a missing one; the defaults are then to be
    /// written to the store.
    pub fn reconcile(persisted: Option<Config>, defaults: Config) -> (loaded: Loaded)
        ensures
            loaded.persist == !Self::kept(persisted, defaults),
            loaded.config == if Self::kept(persisted, defaults) {
                persisted->0
            } else {
                defaults
            },
    {
        match persisted {
            Some(stored) => {
                if stored.version.same_as(&defaults.version) {
                    Loaded { config: stored, persist: false }
                } else {
                    Loaded { config: defaults, persist: true }
                }
            },
            None => Loaded { config: defaults, persist: true },
        }
    }
}

} // verus!
