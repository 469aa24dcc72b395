//! Listeners: each one watches a feed of the game's world and decides, event
//! by event, whether the chat is told.
//!
//! A listener keeps nothing between two events. What it says is rendered
//! from the format that it was registered with.

pub mod config;
pub mod eidolon_hunts;
pub mod meta_relics;
pub mod placeholders;
pub mod register;
pub mod s_tier_arbitrations;
pub mod steel_path_disruption_fissures;

use vstd::prelude::*;

verus! {

/// What has happened to an item of a feed.
#[derive(Debug, Clone, Copy, PartialEq, Eq, Structural)]
pub enum Change {
    /// The item has come into the feed.
    Added,
    /// The item has left the feed.
    Removed,
}

/// The kind of a mission, as far as the listeners tell kinds apart.
#[derive(Debug, Clone, Copy, PartialEq, Eq, Structural)]
pub enum MissionType {
    Defense,
    Disruption,
    /// Any other kind of mission.
    Other,
}

/// The tier of the relics that a fissure cracks.
#[derive(Debug, Clone, Copy, PartialEq, Eq, Structural)]
pub enum RelicTier {
    Lith,
    Meso,
    Neo,
    Axi,
    Requiem,
    Omnia,
}

/// How a map is ranked for arbitrations, as far as the listeners tell ranks
/// apart.
#[derive(Debug, Clone, Copy, PartialEq, Eq, Structural)]
pub enum MapTier {
    S,
    A,
    /// Any rank below `A`.
    Lower,
}

/// A void fissure.
#[derive(Debug, Clone, PartialEq, Eq)]
pub struct Fissure {
    /// The node as it is shown to players.
    pub node: String,
    /// The node and its planet in the form `Node (Planet)`.
    pub node_key: String,
    /// The kind of the mission.
    pub mission_key: MissionType,
    /// The tier of the relics.
    pub tier: RelicTier,
    /// Whether the fissure is on the Steel Path.
    pub is_hard: bool,
}

/// The time of day on the plains of Cetus.
#[derive(Debug, Clone, Copy, PartialEq, Eq, Structural)]
pub enum CetusState {
    Day,
    Night,
}

/// The cycle of day and night on Cetus.
#[derive(Debug, Clone, Copy, PartialEq, Eq, Structural)]
pub struct Cetus {
    pub state: CetusState,
}

} // verus!
