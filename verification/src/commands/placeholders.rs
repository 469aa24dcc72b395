//! The placeholders of command replies.

use vstd::prelude::*;
use crate::placeholder::Placeholder;

verus! {

/// The user who sent the command.
#[derive(Clone, Copy)]
pub struct Author<'a>(pub &'a str);

impl Placeholder for Author<'_> {
    open spec fn key_view(&self) -> Seq<char> {
        "{author}"@
    }

    open spec fn value_view(&self) -> Seq<char> {
        self.0@
    }

    fn key(&self) -> (k: &'static str) {
        "{author}"
    }

    fn value(&self) -> (v: &str) {
        self.0
    }
}

/// The most recent average price.
pub struct Average(pub String);

impl Placeholder for Average {
    open spec fn key_view(&self) -> Seq<char> {
        "{average}"@
    }

    open spec fn value_view(&self) -> Seq<char> {
        self.0@
    }

    fn key(&self) -> (k: &'static str) {
        "{average}"
    }

    fn value(&self) -> (v: &str) {
        self.0.as_str()
    }
}

/// The most recent moving average.
pub struct MovingAverage(pub String);

impl Placeholder for MovingAverage {
    open spec fn key_view(&self) -> Seq<char> {
        "{moving_average}"@
    }

    open spec fn value_view(&self) -> Seq<char> {
        self.0@
    }

    fn key(&self) -> (k: &'static str) {
        "{moving_average}"
    }

    fn value(&self) -> (v: &str) {
        self.0.as_str()
    }
}

/// The number of items sold.
pub struct AmountSold(pub String);

impl Placeholder for AmountSold {
    open spec fn key_view(&self) -> Seq<char> {
        "{amount_sold}"@
    }

    open spec fn value_view(&self) -> Seq<char> {
        self.0@
    }

    fn key(&self) -> (k: &'static str) {
        "{amount_sold}"
    }

    fn value(&self) -> (v: &str) {
        self.0.as_str()
    }
}

/// The name of the item that was asked for.
pub struct ItemName<'a>(pub &'a str);

impl Placeholder for ItemName<'_> {
    open spec fn key_view(&self) -> Seq<char> {
        "{item_name}"@
    }

    open spec fn value_view(&self) -> Seq<char> {
        self.0@
    }

    fn key(&self) -> (k: &'static str) {
        "{item_name}"
    }

    fn value(&self) -> (v: &str) {
        self.0
    }
}

/// Any one placeholder of a command reply, so that placeholders of
/// different kinds can stand in one list.
pub enum CommandPlaceholder<'a> {
    Average(Average),
    MovingAverage(MovingAverage),
    AmountSold(AmountSold),
    ItemName(ItemName<'a>),
}

impl Placeholder for CommandPlaceholder<'_> {
    open spec fn key_view(&self) -> Seq<char> {
        match self {
            CommandPlaceholder::Average(p) => p.key_view(),
            CommandPlaceholder::MovingAverage(p) => p.key_view(),
            CommandPlaceholder::AmountSold(p) => p.key_view(),
            CommandPlaceholder::ItemName(p) => p.key_view(),
        }
    }

    open spec fn value_view(&self) -> Seq<char> {
        match self {
            CommandPlaceholder::Average(p) => p.value_view(),
            CommandPlaceholder::MovingAverage(p) => p.value_view(),
            CommandPlaceholder::AmountSold(p) => p.value_view(),
            CommandPlaceholder::ItemName(p) => p.value_view(),
        }
    }

    fn key(&self) -> (k: &'static str) {
        match self {
            CommandPlaceholder::Average(p) => p.key(),
            CommandPlaceholder::MovingAverage(p) => p.key(),
            CommandPlaceholder::AmountSold(p) => p.key(),
            CommandPlaceholder::ItemName(p) => p.key(),
        }
    }

    fn value(&self) -> (v: &str) {
        match self {
            CommandPlaceholder::Average(p) => p.value(),
            CommandPlaceholder::MovingAverage(p) => p.value(),
            CommandPlaceholder::AmountSold(p) => p.value(),
            CommandPlaceholder::ItemName(p) => p.value(),
        }
    }
}

} // verus!
