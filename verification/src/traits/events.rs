//! Hooks that a command may run around its life on a server.

use vstd::prelude::*;

verus! {

/// What a command does when it is set up, torn down, enabled or disabled
/// on a server. Each hook does nothing unless the command says otherwise.
pub trait CommandEvents {
    /// Runs before the command is set up on a server.
    fn before_setup(&self) {
    }

    /// Runs after the command was set up on a server.
    fn after_setup(&self) {
    }

    /// Runs before the command is removed from a server.
    fn before_teardown(&self) {
    }

    /// Runs after the command was removed from a server.
    fn after_teardown(&self) {
    }

    /// Runs when the command is enabled on a server.
    fn on_enabled(&self) {
    }

    /// Runs when the command is disabled on a server.
    fn on_disabled(&self) {
    }
}

} // verus!
