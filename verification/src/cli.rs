//! What the program is asked to do on the command line.

use vstd::prelude::*;

verus! {

/// The command line.
#[derive(Debug, Clone, PartialEq, Eq)]
pub struct Cli {
    pub command: Commands,
}

/// What the program can be asked to do.
#[derive(Debug, Clone, PartialEq, Eq)]
pub enum Commands {
    /// Store the credentials of the bot.
    Init {
        /// The client id
        id: String,
        /// The client secret
        secret: String,
    },
    /// Run the bot.
    Run {
        /// The Twitch channel to run the bot on
        channel_name: String,
    },
}

} // verus!
