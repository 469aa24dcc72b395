//! Tells the chat of each arbitration on a map of rank `S`, at the moment
//! the arbitration starts.
//!
//! This listener does not wait for a feed. It asks for the next such
//! arbitration, sleeps until it starts, speaks, and asks again.

use vstd::prelude::*;
use crate::listener::placeholders::{ListenerPlaceholder, Node, Planet};
use crate::listener::MapTier;
use crate::placeholder::{rendered, ChannelName};
use crate::state::listener_response;

verus! {

/// The number of nanoseconds in a second.
pub const NANOS_PER_SEC: u32 = 1_000_000_000;

/// A point in time: the whole seconds since the start of 1970 (UTC) and the
/// nanoseconds into the second that follows.
#[derive(Debug, Clone, Copy, PartialEq, Eq)]
pub struct Instant {
    secs: i64,
    nanos: u32,
}

impl Instant {
    #[verifier::type_invariant]
    spec fn well_formed(self) -> bool {
        self.nanos < NANOS_PER_SEC
    }

    /// The point in time as nanoseconds since the start of 1970 (UTC).
    pub closed spec fn nanoseconds(self) -> int {
        self.secs * NANOS_PER_SEC + self.nanos
    }

    /// The point in time `nanos` nanoseconds after the second `secs`, where
    /// `nanos` is less than a second.
    pub fn new(secs: i64, nanos: u32) -> (instant: Option<Instant>)
        ensures
            instant is Some <==> nanos < NANOS_PER_SEC,
            instant matches Some(t) ==> t.nanoseconds() == secs * NANOS_PER_SEC + nanos,
    {
        if nanos < NANOS_PER_SEC {
            Some(Instant { secs, nanos })
        } else {
            None
        }
    }
}

/// A span of time: whole seconds and the nanoseconds beyond them.
#[derive(Debug, Clone, Copy, PartialEq, Eq)]
pub struct Delay {
    secs: u64,
    nanos: u32,
}

impl Delay {
    #[verifier::type_invariant]
    spec fn well_formed(self) -> bool {
        self.nanos < NANOS_PER_SEC
    }

    /// The span in nanoseconds.
    pub closed spec fn nanoseconds(self) -> int {
        self.secs * NANOS_PER_SEC + self.nanos
    }

    /// The whole seconds of the span.
    pub fn secs(&self) -> (secs: u64)
        ensures
            secs == self.nanoseconds() / (NANOS_PER_SEC as int),
    {
        proof {
            use_type_invariant(self);
        }
        self.secs
    }

    /// The nanoseconds of the span beyond its whole seconds.
    pub fn subsec_nanos(&self) -> (nanos: u32)
        ensures
            nanos == self.nanoseconds() % (NANOS_PER_SEC as int),
            nanos < NANOS_PER_SEC,
    {
        proof {
            use_type_invariant(self);
        }
        self.nanos
    }
}

/// The time from `now` until `activation`, where `activation` lies in the
/// future. For a moment that has come or is past there is nothing to wait
/// for.
pub fn time_until(activation: Instant, now: Instant) -> (wait: Option<Delay>)
    ensures
        wait is Some <==> activation.nanoseconds() > now.nanoseconds(),
        wait matches Some(delay) ==> delay.nanoseconds() == activation.nanoseconds()
            - now.nanoseconds(),
{
    proof {
        use_type_invariant(activation);
        use_type_invariant(now);
    }
    let per_sec: i128 = NANOS_PER_SEC as i128;
    let difference: i128 = (activation.secs as i128 - now.secs as i128) * per_sec + (
    activation.nanos as i128 - now.nanos as i128);
    if difference <= 0 {
        return None;
    }
    let secs: u64 = (difference / per_sec) as u64;
    let nanos: u32 = (difference % per_sec) as u32;
    Some(Delay { secs, nanos })
}

/// An arbitration that is to come.
#[derive(Debug, Clone, PartialEq, Eq)]
pub struct UpcomingEvent {
    /// The moment the arbitration starts.
    pub activation: Instant,
    /// The node that it takes place on.
    pub node: String,
    /// The planet of the node.
    pub planet: String,
    /// The rank of the map.
    pub tier: MapTier,
}

/// What the listener does next.
#[derive(Debug, Clone, PartialEq, Eq)]
pub enum Schedule {
    /// No arbitration is to come: the listener ends.
    Finished,
    /// Sleep for `wait`, where there is any, then send `message` and ask
    /// for the next arbitration.
    Notify { wait: Option<Delay>, message: String },
}

/// The listener for arbitrations on maps of rank `S`.
pub struct STierArbitrationListener;

impl STierArbitrationListener {
    /// Decides what follows the answer to "which arbitration comes next":
    /// with no answer the listener ends; else it sleeps exactly until the
    /// arbitration starts, or not at all where it has started, and then
    /// tells of its node and planet.
    pub fn plan(
        next: Option<&UpcomingEvent>,
        now: Instant,
        format: &str,
        channel_name: &ChannelName,
    ) -> (schedule: Schedule)
        ensures
            match next {
                None => schedule is Finished,
                Some(event) => {
                    &&& schedule matches Schedule::Notify { wait, message }
                    &&& wait is Some <==> event.activation.nanoseconds() > now.nanoseconds()
                    &&& wait matches Some(delay) ==> delay.nanoseconds()
                        == event.activation.nanoseconds() - now.nanoseconds()
                    &&& message@ == rendered(
                        rendered(
                            format@,
                            seq![("{node}"@, event.node@), ("{planet}"@, event.planet@)],
                        ),
                        seq![("{channel_name}"@, channel_name.0@)],
                    )
                },
            },
    {
        let event = match next {
            Some(event) => event,
            None => {
                return Schedule::Finished;
            },
        };
        let wait = time_until(event.activation, now);
        let mut placeholders: Vec<ListenerPlaceholder> = Vec::new();
        placeholders.push(ListenerPlaceholder::Node(Node(event.node.as_str())));
        placeholders.push(ListenerPlaceholder::Planet(Planet(event.planet.as_str())));
        assert(crate::placeholder::pairs_of(placeholders@) =~= seq![
            ("{node}"@, event.node@),
            ("{planet}"@, event.planet@),
        ]);
        let message = listener_response(format, channel_name, placeholders.as_slice());
        Schedule::Notify { wait, message }
    }
}

} // verus!
