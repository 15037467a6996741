use vstd::prelude::*;

use crate::commands::{command_key, spec_command_key, spec_command_of_tag, Command};
use crate::data::{decode_data, gvariant_value};
use crate::errors::GenericError;
use crate::store::StateStore;

verus! {

/// What the event loop should do with one received datagram.
pub enum EventOutcome {
    /// Re-establish the windowing-system connection and continue, the state
    /// store untouched — the sole recovery path when that connection
    /// becomes unusable.
    Reconnect,
    /// Remove the control-channel endpoint from the filesystem and leave
    /// the loop.
    Shutdown,
    /// Hand the command to the dispatcher, after querying the active
    /// window, its live geometry and the work area.
    Dispatch(Command),
    /// The datagram is bad: report the error and keep serving — a malformed
    /// command never terminates the daemon.
    Malformed(GenericError),
}

/// Decides what one received datagram asks of the event loop. The store
/// rides along untouched whatever the datagram holds: only the dispatcher,
/// run afterwards on a Dispatch outcome, ever changes it — in particular a
/// Restart swaps the windowing-system connection alone and leaves every
/// entry exactly as it was.
#[allow(unused_variables)]
pub fn event_step(store: &mut StateStore, bytes: &[u8]) -> (r: EventOutcome)
    ensures
        final(store)@ == old(store)@,
        match gvariant_value(bytes@) {
            None => r matches EventOutcome::Malformed(e) && e@ == "gvariant decoding"@,
            Some(m) => if !m.contains_key(spec_command_key()) {
                r matches EventOutcome::Malformed(e) && e@ == "command not found in message"@
            } else {
                match spec_command_of_tag(m[spec_command_key()]) {
                    None => r matches EventOutcome::Malformed(e) && e@
                        == "unsupported command"@,
                    Some(Command::Restart) => r is Reconnect,
                    Some(Command::Quit) => r is Shutdown,
                    Some(c) => r == EventOutcome::Dispatch(c),
                }
            },
        },
{
    let message = match decode_data(bytes) {
        Ok(m) => m,
        Err(e) => {
            return EventOutcome::Malformed(e);
        },
    };
    let tag = match message.get(command_key()) {
        Some(t) => t,
        None => {
            return EventOutcome::Malformed(GenericError::new("command not found in message"));
        },
    };
    match Command::from_tag(tag) {
        None => EventOutcome::Malformed(GenericError::new("unsupported command")),
        Some(Command::Restart) => EventOutcome::Reconnect,
        Some(Command::Quit) => EventOutcome::Shutdown,
        Some(c) => EventOutcome::Dispatch(c),
    }
}

} // verus!
