use vstd::prelude::*;

use super::command::{spec_execute, Command};
use crate::bats_lib::plugin::PluginParams;
use crate::bats_lib::session::Session;

verus! {

/// A notification for the user interface.
#[derive(Clone, Debug, PartialEq)]
pub enum Notification<V, P> {
    /// Notify that a new undo command is available.
    Undo(Command<V, P>),
}

/// Execute `cmd` on `b` and return the notification that carries its undo command.
pub fn execute_and_notify<V: Copy, P: PluginParams<V>>(cmd: Command<V, P>, b: &mut Session<V, P>) -> (n:
    Notification<V, P>)
    ensures
        final(b).tracks@.len() == old(b).tracks@.len(),
        n matches Notification::Undo(undo) && (undo@, final(b)@) == spec_execute(cmd@, old(b)@),
{
    Notification::Undo(cmd.execute(b))
}

} // verus!
