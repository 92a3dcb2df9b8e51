//! Slash commands the bot understands.
use vstd::prelude::*;

verus! {

#[derive(Clone, Copy, Debug, PartialEq, Eq, Structural)]
pub enum Command {
    /// Lists the commands.
    Help,
    /// Opens the settings menu.
    Settings,
}

} // verus!
