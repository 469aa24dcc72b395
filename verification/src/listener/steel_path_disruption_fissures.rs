//! Tells the chat of new disruption fissures on the Steel Path.

use vstd::prelude::*;
use crate::listener::placeholders::Node;
use crate::listener::{Change, Fissure, MissionType, RelicTier};
use crate::placeholder::{rendered, ChannelName};
use crate::state::listener_response;

verus! {

/// The listener for disruption fissures on the Steel Path.
pub struct SteelPathDisruptionFissuresListener;

impl SteelPathDisruptionFissuresListener {
    /// Whether a change of the fissures is told: a fissure has been added,
    /// its relics are not requiem relics, its mission is a disruption and
    /// it is on the Steel Path.
    pub open spec fn tells(fissure: Fissure, change: Change) -> bool {
        &&& change == Change::Added
        &&& fissure.tier != RelicTier::Requiem
        &&& fissure.mission_key == MissionType::Disruption
        &&& fissure.is_hard
    }

    /// Decides what is said when a fissure has come or gone: the message
    /// with the fissure's node where the change is told, else nothing.
    pub fn on_change(fissure: &Fissure, change: Change, format: &str, channel_name: &ChannelName) -> (message:
        Option<String>)
        ensures
            message is Some <==> Self::tells(*fissure, change),
            message matches Some(text) ==> text@ == rendered(
                rendered(format@, seq![("{node}"@, fissure.node@)]),
                seq![("{channel_name}"@, channel_name.0@)],
            ),
    {
        let added = match change {
            Change::Added => true,
            Change::Removed => false,
        };
        let requiem = match fissure.tier {
            RelicTier::Requiem => true,
            _ => false,
        };
        let disruption = match fissure.mission_key {
            MissionType::Disruption => true,
            _ => false,
        };
        if added && !requiem && disruption && fissure.is_hard {
            let mut placeholders: Vec<Node> = Vec::new();
            placeholders.push(Node(fissure.node.as_str()));
            assert(crate::placeholder::pairs_of(placeholders@) =~= seq![
                ("{node}"@, fissure.node@),
            ]);
            Some(listener_response(format, channel_name, placeholders.as_slice()))
        } else {
            None
        }
    }
}

} // verus!
