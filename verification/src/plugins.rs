//! The parts of the plugin system that belong to the core: the command
//! interface plugins implement and the plain descriptor records. Loading
//! descriptors from disk is an outside concern.

use vstd::prelude::*;

verus! {

/// Why a plugin command did not run.
#[derive(Debug, Clone, PartialEq, Eq, Structural)]
pub enum PluginError {
    Failed,
}

/// A command a plugin offers to the editor. Implementations live outside
/// the core.
pub trait PluginCommand {
    /// Run the command with its arguments.
    fn execute(&self, args: &Vec<String>) -> Result<(), PluginError>;

    /// The command's name.
    fn name(&self) -> &str;

    /// What the command does, in a sentence.
    fn description(&self) -> &str;
}

/// The descriptor of one command a plugin provides.
#[derive(Debug, Clone)]
pub struct CommandConfig {
    pub id: String,
    pub name: String,
    pub description: String,
}

/// The descriptor of one keybinding a plugin provides.
#[derive(Debug, Clone)]
pub struct KeybindingConfig {
    pub key: String,
    pub command: String,
    pub when: Option<String>,
}

} // verus!
