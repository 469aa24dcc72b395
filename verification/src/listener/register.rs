//! Which listeners run.

use vstd::prelude::*;
use crate::listener::config::{ListenerConfig, ListenerConfigOptions};

verus! {

/// The listeners that there are.
#[derive(Debug, Clone, Copy, PartialEq, Eq, Structural)]
pub enum ListenerKind {
    EidolonHunts,
    STierArbitrations,
    MetaRelics,
    SteelPathDisruptionFissures,
}

/// A listener that is to run, with the format that it speaks in for as
/// long as it runs.
#[derive(Debug, Clone, PartialEq, Eq)]
pub struct Registration {
    pub listener: ListenerKind,
    pub format: String,
}

/// The registration of one listener: none where it is disabled.
pub open spec fn registration_of(listener: ListenerKind, options: ListenerConfigOptions) -> Seq<
    (ListenerKind, Seq<char>),
> {
    if options.enabled {
        seq![(listener, options.format@)]
    } else {
        Seq::empty()
    }
}

/// The listeners that a configuration enables, each with its format, in
/// the order in which they are started.
pub open spec fn registrations(config: ListenerConfig) -> Seq<(ListenerKind, Seq<char>)> {
    registration_of(ListenerKind::EidolonHunts, config.eidolon_hunts) + registration_of(
        ListenerKind::STierArbitrations,
        config.s_tier_arbitrations,
    ) + registration_of(ListenerKind::MetaRelics, config.meta_relics) + registration_of(
        ListenerKind::SteelPathDisruptionFissures,
        config.steel_path_disruption_fissures,
    )
}

/// The listener and the format of each registration.
pub open spec fn registration_views(list: Seq<Registration>) -> Seq<(ListenerKind, Seq<char>)> {
    Seq::new(list.len(), |i: int| (list[i].listener, list[i].format@))
}

/// Adds the registration of one listener where it is enabled.
fn register(list: &mut Vec<Registration>, listener: ListenerKind, options: &ListenerConfigOptions)
    ensures
        registration_views(final(list)@) == registration_views(old(list)@) + registration_of(
            listener,
            *options,
        ),
{
    if options.enabled {
        list.push(Registration { listener, format: options.format.clone() });
    }
    assert(registration_views(list@) =~= registration_views(old(list)@) + registration_of(
        listener,
        *options,
    ));
}

/// Lists the listeners that are to run: every enabled one and no disabled
/// one. Each takes the format that the configuration holds at this moment.
pub fn register_listeners(config: &ListenerConfig) -> (list: Vec<Registration>)
    ensures
        registration_views(list@) == registrations(*config),
{
    let mut list: Vec<Registration> = Vec::new();
    assert(registration_views(list@) =~= Seq::empty());
    register(&mut list, ListenerKind::EidolonHunts, &config.eidolon_hunts);
    register(&mut list, ListenerKind::STierArbitrations, &config.s_tier_arbitrations);
    register(&mut list, ListenerKind::MetaRelics, &config.meta_relics);
    register(
        &mut list,
        ListenerKind::SteelPathDisruptionFissures,
        &config.steel_path_disruption_fissures,
    );
    assert(registration_views(list@) =~= registrations(*config));
    list
}

} // verus!
