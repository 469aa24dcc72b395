//! What can be configured of the commands.

use vstd::prelude::*;

verus! {

/// Whether a command is offered, and the format of its reply.
#[derive(Debug, Clone, PartialEq, Eq)]
pub struct CommandConfigOptions {
    pub enabled: bool,
    pub format: String,
}

impl From<&str> for CommandConfigOptions {
    /// An enabled command that replies in the given format.
    fn from(value: &str) -> (options: Self)
        ensures
            options.enabled,
            options.format@ == value@,
    {
        Self { enabled: true, format: value.to_owned() }
    }
}

impl vstd::std_specs::convert::FromSpecImpl<&str> for CommandConfigOptions {
    open spec fn obeys_from_spec() -> bool {
        false
    }

    open spec fn from_spec(value: &str) -> Self {
        arbitrary()
    }
}

/// The configuration of each command.
#[derive(Debug, Clone, PartialEq, Eq)]
pub struct CommandConfig {
    pub average_command: CommandConfigOptions,
}

impl CommandConfig {
    /// The reply format that the average command has unless another is
    /// configured.
    pub open spec fn default_average_format() -> Seq<char> {
        "@{author} \"{item_name}\" average: {average}p - moving average: {moving_average}p | {amount_sold} sold in the last 48h"@
    }
}

impl Default for CommandConfig {
    /// Every command enabled, each with its default format.
    fn default() -> (config: Self)
        ensures
            config.average_command.enabled,
            config.average_command.format@ == CommandConfig::default_average_format(),
    {
        CommandConfig {
            average_command: CommandConfigOptions::from(
                "@{author} \"{item_name}\" average: {average}p - moving average: {moving_average}p | {amount_sold} sold in the last 48h",
            ),
        }
    }
}

} // verus!
