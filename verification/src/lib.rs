//! A chat bot that tells a channel of events in the game's world and
//! answers commands about market prices.
//!
//! This library holds what the bot decides and computes: the template
//! engine, the command router with its argument checks, the parser of
//! filters, the search for the item that a user meant, the rules of each
//! listener and the plan of the scheduler. Reading feeds and sending
//! messages is left to the program around it.

pub mod cli;
pub mod commands;
pub mod config;
pub mod credentials;
pub mod listener;
pub mod placeholder;
pub mod state;
pub mod text;
