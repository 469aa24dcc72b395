//! Tells the chat when night falls on Cetus.

use vstd::prelude::*;
use crate::listener::placeholders::ListenerPlaceholder;
use crate::listener::{Cetus, CetusState};
use crate::placeholder::{rendered, ChannelName};
use crate::state::listener_response;

verus! {

/// The listener for eidolon hunts.
pub struct EidolonHuntListener;

impl EidolonHuntListener {
    /// Decides what is said when the cycle of Cetus has changed: the
    /// message where it is night now, nothing where it is day. What the
    /// cycle was before does not matter.
    pub fn on_update(before: &Cetus, cetus: &Cetus, format: &str, channel_name: &ChannelName) -> (message:
        Option<String>)
        ensures
            message is Some <==> cetus.state == CetusState::Night,
            message matches Some(text) ==> text@ == rendered(
                format@,
                seq![("{channel_name}"@, channel_name.0@)],
            ),
    {
        match cetus.state {
            CetusState::Night => {
                let none: Vec<ListenerPlaceholder> = Vec::new();
                assert(crate::placeholder::pairs_of(none@) =~= Seq::empty());
                Some(listener_response(format, channel_name, none.as_slice()))
            },
            CetusState::Day => None,
        }
    }
}

} // verus!
