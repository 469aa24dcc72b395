//! The template engine: named tokens in a format string are replaced by
//! their values, one placeholder after the other.

use vstd::prelude::*;
use crate::text::{chars_of, lemma_replaced_without_match, occurs_in, replace, replaced, string_of};

verus! {

/// A token of a format string together with the text that takes its place.
pub trait Placeholder {
    /// The token, as a sequence of characters.
    spec fn key_view(&self) -> Seq<char>;

    /// The text that replaces the token, as a sequence of characters.
    spec fn value_view(&self) -> Seq<char>;

    /// The token that is looked for in a format string.
    fn key(&self) -> (k: &'static str)
        ensures
            k@ == self.key_view(),
    ;

    /// The text that takes the token's place.
    fn value(&self) -> (v: &str)
        ensures
            v@ == self.value_view(),
    ;
}

impl<P: ?Sized + Placeholder> Placeholder for &P {
    open spec fn key_view(&self) -> Seq<char> {
        (**self).key_view()
    }

    open spec fn value_view(&self) -> Seq<char> {
        (**self).value_view()
    }

    fn key(&self) -> (k: &'static str) {
        P::key(self)
    }

    fn value(&self) -> (v: &str) {
        P::value(self)
    }
}

/// The token and the value of each placeholder, in the order given.
pub open spec fn pairs_of<P: Placeholder>(placeholders: Seq<P>) -> Seq<(Seq<char>, Seq<char>)> {
    Seq::new(placeholders.len(), |i: int| (placeholders[i].key_view(), placeholders[i].value_view()))
}

/// The format string after each pair of token and value has been applied
/// in turn: the first pair to `fmt`, the next to what the first left, and so
/// on. Nothing is escaped, so a value may hold a token that a later pair
/// replaces.
pub open spec fn rendered(fmt: Seq<char>, pairs: Seq<(Seq<char>, Seq<char>)>) -> Seq<char>
    decreases pairs.len(),
{
    if pairs.len() == 0 {
        fmt
    } else {
        replaced(rendered(fmt, pairs.drop_last()), pairs.last().0, pairs.last().1)
    }
}

/// Rendering in two passes, with one list of pairs and then with another,
/// is rendering once with the two lists joined.
pub proof fn rendering_in_two_passes_is_rendering_once(
    fmt: Seq<char>,
    first: Seq<(Seq<char>, Seq<char>)>,
    second: Seq<(Seq<char>, Seq<char>)>,
)
    ensures
        rendered(rendered(fmt, first), second) == rendered(fmt, first + second),
    decreases second.len(),
{
    if second.len() == 0 {
        assert(first + second =~= first);
    } else {
        rendering_in_two_passes_is_rendering_once(fmt, first, second.drop_last());
        assert((first + second).drop_last() =~= first + second.drop_last());
        assert((first + second).last() == second.last());
    }
}

/// A format string that holds none of the tokens comes out of rendering
/// unchanged, and rendering it again changes nothing either.
pub proof fn rendering_without_tokens_is_identity(
    fmt: Seq<char>,
    pairs: Seq<(Seq<char>, Seq<char>)>,
)
    requires
        forall|i: int| 0 <= i < pairs.len() ==> !occurs_in(fmt, #[trigger] pairs[i].0),
    ensures
        rendered(fmt, pairs) == fmt,
        rendered(rendered(fmt, pairs), pairs) == rendered(fmt, pairs),
    decreases pairs.len(),
{
    if pairs.len() > 0 {
        let init = pairs.drop_last();
        assert forall|i: int| 0 <= i < init.len() implies !occurs_in(fmt, #[trigger] init[i].0) by {
            assert(init[i] == pairs[i]);
        }
        rendering_without_tokens_is_identity(fmt, init);
        lemma_replaced_without_match(fmt, pairs.last().0, pairs.last().1);
    }
}

/// Replaces in `fmt` every token of every placeholder by its value, one
/// placeholder after the other, each on what the one before has left.
pub fn apply_placeholders<P: Placeholder>(fmt: &str, placeholders: &[P]) -> (result: String)
    ensures
        result@ == rendered(fmt@, pairs_of(placeholders@)),
{
    let mut current: Vec<char> = chars_of(fmt);
    let mut i: usize = 0;
    while i < placeholders.len()
        invariant
            i <= placeholders.len(),
            current@ == rendered(fmt@, pairs_of(placeholders@).take(i as int)),
        decreases placeholders.len() - i,
    {
        let key = chars_of(placeholders[i].key());
        let value = chars_of(placeholders[i].value());
        let next = replace(current.as_slice(), key.as_slice(), value.as_slice());
        proof {
            let pairs = pairs_of(placeholders@);
            assert(pairs.take(i + 1).drop_last() =~= pairs.take(i as int));
            assert(pairs.take(i + 1).last() == pairs[i as int]);
        }
        current = next;
        i += 1;
    }
    assert(pairs_of(placeholders@).take(placeholders.len() as int) =~= pairs_of(placeholders@));
    string_of(&current)
}

/// The name of the chat channel that messages go to.
#[derive(Debug, Clone, PartialEq, Eq, Hash)]
pub struct ChannelName(pub String);

impl Placeholder for ChannelName {
    open spec fn key_view(&self) -> Seq<char> {
        "{channel_name}"@
    }

    open spec fn value_view(&self) -> Seq<char> {
        self.0@
    }

    fn key(&self) -> (k: &'static str) {
        "{channel_name}"
    }

    fn value(&self) -> (v: &str) {
        self.0.as_str()
    }
}

impl ChannelName {
    /// The channel's name as an owned string.
    pub fn to_string(&self) -> (s: String)
        ensures
            s@ == self.0@,
    {
        self.0.clone()
    }
}

impl From<String> for ChannelName {
    fn from(value: String) -> (channel: Self) {
        ChannelName(value)
    }
}

impl vstd::std_specs::convert::FromSpecImpl<String> for ChannelName {
    open spec fn obeys_from_spec() -> bool {
        true
    }

    open spec fn from_spec(value: String) -> Self {
        ChannelName(value)
    }
}

} // verus!
