//! The placeholders of listener messages.

use vstd::prelude::*;
use crate::placeholder::Placeholder;

verus! {

/// The node that an event takes place on.
pub struct Node<'a>(pub &'a str);

impl<'a> Placeholder for Node<'a> {
    open spec fn key_view(&self) -> Seq<char> {
        "{node}"@
    }

    open spec fn value_view(&self) -> Seq<char> {
        self.0@
    }

    fn key(&self) -> (k: &'static str) {
        "{node}"
    }

    fn value(&self) -> (v: &str) {
        self.0
    }
}

/// The planet that the node belongs to.
pub struct Planet<'a>(pub &'a str);

impl<'a> Placeholder for Planet<'a> {
    open spec fn key_view(&self) -> Seq<char> {
        "{planet}"@
    }

    open spec fn value_view(&self) -> Seq<char> {
        self.0@
    }

    fn key(&self) -> (k: &'static str) {
        "{planet}"
    }

    fn value(&self) -> (v: &str) {
        self.0
    }
}

/// Whether a mission is on the Steel Path.
pub struct Difficulty {
    pub is_hard: bool,
}

impl Placeholder for Difficulty {
    open spec fn key_view(&self) -> Seq<char> {
        "{difficulty}"@
    }

    open spec fn value_view(&self) -> Seq<char> {
        if self.is_hard {
            "Steel Path"@
        } else {
            "Normal"@
        }
    }

    fn key(&self) -> (k: &'static str) {
        "{difficulty}"
    }

    fn value(&self) -> (v: &str) {
        if self.is_hard {
            "Steel Path"
        } else {
            "Normal"
        }
    }
}

/// Any one placeholder of a listener message, so that placeholders of
/// different kinds can stand in one list.
pub enum ListenerPlaceholder<'a> {
    Node(Node<'a>),
    Planet(Planet<'a>),
    Difficulty(Difficulty),
}

impl Placeholder for ListenerPlaceholder<'_> {
    open spec fn key_view(&self) -> Seq<char> {
        match self {
            ListenerPlaceholder::Node(p) => p.key_view(),
            ListenerPlaceholder::Planet(p) => p.key_view(),
            ListenerPlaceholder::Difficulty(p) => p.key_view(),
        }
    }

    open spec fn value_view(&self) -> Seq<char> {
        match self {
            ListenerPlaceholder::Node(p) => p.value_view(),
            ListenerPlaceholder::Planet(p) => p.value_view(),
            ListenerPlaceholder::Difficulty(p) => p.value_view(),
        }
    }

    fn key(&self) -> (k: &'static str) {
        match self {
            ListenerPlaceholder::Node(p) => p.key(),
            ListenerPlaceholder::Planet(p) => p.key(),
            ListenerPlaceholder::Difficulty(p) => p.key(),
        }
    }

    fn value(&self) -> (v: &str) {
        match self {
            ListenerPlaceholder::Node(p) => p.value(),
            ListenerPlaceholder::Planet(p) => p.value(),
            ListenerPlaceholder::Difficulty(p) => p.value(),
        }
    }
}

} // verus!
