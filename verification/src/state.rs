//! The messages that go out to the chat.
//!
//! Every message is rendered in two passes: first the placeholders of the
//! command or listener that speaks, then the one placeholder that every
//! message of its kind has, so that it is applied whatever the first pass
//! was given.

use vstd::prelude::*;
use crate::commands::placeholders::Author;
use crate::placeholder::{apply_placeholders, pairs_of, rendered, ChannelName, Placeholder};

verus! {

/// The reply to a command: `fmt` with the placeholders applied and then the
/// author's name in place of `{author}`.
pub fn command_response<P: Placeholder>(fmt: &str, author: &str, placeholders: &[P]) -> (message:
    String)
    ensures
        message@ == rendered(
            rendered(fmt@, pairs_of(placeholders@)),
            seq![("{author}"@, author@)],
        ),
{
    let intermediate_message = apply_placeholders(fmt, placeholders);
    let mut base: Vec<Author> = Vec::new();
    base.push(Author(author));
    assert(pairs_of(base@) =~= seq![("{author}"@, author@)]);
    apply_placeholders(intermediate_message.as_str(), base.as_slice())
}

/// The message of a listener: `fmt` with the placeholders applied and then
/// the channel's name in place of `{channel_name}`.
pub fn listener_response<P: Placeholder>(
    fmt: &str,
    channel_name: &ChannelName,
    placeholders: &[P],
) -> (message: String)
    ensures
        message@ == rendered(
            rendered(fmt@, pairs_of(placeholders@)),
            seq![("{channel_name}"@, channel_name.0@)],
        ),
{
    let intermediate_message = apply_placeholders(fmt, placeholders);
    let mut base: Vec<&ChannelName> = Vec::new();
    base.push(channel_name);
    assert(pairs_of(base@) =~= seq![("{channel_name}"@, channel_name.0@)]);
    apply_placeholders(intermediate_message.as_str(), base.as_slice())
}

} // verus!
