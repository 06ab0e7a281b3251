//! The errors that stop the bridge at start-up.

use vstd::prelude::*;
use vstd::string::*;

verus! {

/// A fatal start-up error. Nothing that happens after start-up produces one:
/// delivery failures are reported as diagnostics and never as errors.
#[derive(Debug)]
pub enum PluginError {
    /// The configuration is missing, unreadable, malformed or incomplete.
    Config(String),
    /// The bot client could not be brought up.
    Bot(String),
}

impl PluginError {
    /// The message the error carries, without the prefix of its category.
    pub open spec fn detail(self) -> Seq<char> {
        match self {
            PluginError::Config(msg) => msg@,
            PluginError::Bot(msg) => msg@,
        }
    }

    /// The line shown to the operator: the category, a colon and the message.
    pub open spec fn text(self) -> Seq<char> {
        match self {
            PluginError::Config(msg) => "Configuration Error: "@ + msg@,
            PluginError::Bot(msg) => "Bot Error: "@ + msg@,
        }
    }

    /// Renders the error as the line shown to the operator.
    pub fn to_text(&self) -> (text: String)
        ensures
            text@ == self.text(),
    {
        match self {
            PluginError::Config(msg) => "Configuration Error: ".to_owned().concat(msg.as_str()),
            PluginError::Bot(msg) => "Bot Error: ".to_owned().concat(msg.as_str()),
        }
    }
}

} // verus!
