//! What can be configured of the listeners.

use vstd::prelude::*;

verus! {

/// Whether a listener runs, and the format of its message.
#[derive(Debug, Clone, PartialEq, Eq)]
pub struct ListenerConfigOptions {
    pub enabled: bool,
    pub format: String,
}

impl ListenerConfigOptions {
    /// An enabled listener that speaks in the given format.
    pub fn new(s: &str) -> (options: Self)
        ensures
            options.enabled,
            options.format@ == s@,
    {
        Self { enabled: true, format: s.to_owned() }
    }
}

impl From<&str> for ListenerConfigOptions {
    /// An enabled listener that speaks in the given format.
    fn from(value: &str) -> (options: Self)
        ensures
            options.enabled,
            options.format@ == value@,
    {
        Self::new(value)
    }
}

impl vstd::std_specs::convert::FromSpecImpl<&str> for ListenerConfigOptions {
    open spec fn obeys_from_spec() -> bool {
        false
    }

    open spec fn from_spec(value: &str) -> Self {
        arbitrary()
    }
}

/// The configuration of each listener.
#[derive(Debug, Clone, PartialEq, Eq)]
pub struct ListenerConfig {
    /// Eidolon Hunts
    pub eidolon_hunts: ListenerConfigOptions,
    /// S Tier Arbitrations, based on the "Arbitration Goons" Tierlist
    pub s_tier_arbitrations: ListenerConfigOptions,
    /// Meta Relics. These are just S-Tier Arbitration maps, but fissures
    pub meta_relics: ListenerConfigOptions,
    /// What the name implies, Steel Path Disruption Fissures
    pub steel_path_disruption_fissures: ListenerConfigOptions,
}

impl ListenerConfig {
    /// The format of the eidolon hunt message unless another is configured.
    pub open spec fn default_eidolon_hunts_format() -> Seq<char> {
        "🌙 @{channel_name}, swing yo' ass over to Cetus! It's EIDOLON TIME!"@
    }

    /// The format of the arbitration message unless another is configured.
    pub open spec fn default_s_tier_arbitrations_format() -> Seq<char> {
        "💰 @{channel_name}, new S-Tier Arbitration: {node} on {planet}"@
    }

    /// The format of the meta relic message unless another is configured.
    pub open spec fn default_meta_relics_format() -> Seq<char> {
        "🔍 @{channel_name} New Meta Fissure detected on {node} - {difficulty}"@
    }

    /// The format of the disruption fissure message unless another is
    /// configured.
    pub open spec fn default_steel_path_disruption_fissures_format() -> Seq<char> {
        "⚡ @{channel_name} New Steel Path Disruption Fissure detected on {node}"@
    }
}

impl Default for ListenerConfig {
    /// Every listener enabled, each with its default format.
    fn default() -> (config: Self)
        ensures
            config.eidolon_hunts.enabled,
            config.eidolon_hunts.format@ == ListenerConfig::default_eidolon_hunts_format(),
            config.s_tier_arbitrations.enabled,
            config.s_tier_arbitrations.format@
                == ListenerConfig::default_s_tier_arbitrations_format(),
            config.meta_relics.enabled,
            config.meta_relics.format@ == ListenerConfig::default_meta_relics_format(),
            config.steel_path_disruption_fissures.enabled,
            config.steel_path_disruption_fissures.format@
                == ListenerConfig::default_steel_path_disruption_fissures_format(),
    {
        ListenerConfig {
            eidolon_hunts: ListenerConfigOptions::new(
                "🌙 @{channel_name}, swing yo' ass over to Cetus! It's EIDOLON TIME!",
            ),
            s_tier_arbitrations: ListenerConfigOptions::new(
                "💰 @{channel_name}, new S-Tier Arbitration: {node} on {planet}",
            ),
            meta_relics: ListenerConfigOptions::new(
                "🔍 @{channel_name} New Meta Fissure detected on {node} - {difficulty}",
            ),
            steel_path_disruption_fissures: ListenerConfigOptions::new(
                "⚡ @{channel_name} New Steel Path Disruption Fissure detected on {node}",
            ),
        }
    }
}

} // verus!
