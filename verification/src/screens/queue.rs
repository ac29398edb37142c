//! The queue screen. It only makes sure the account is usable; its body is
//! rendering alone.
use crate::app::{App, Persisted};
use crate::key::Key;
use crate::message::Message;
use crate::screens::screen::{auth_gate, gated_idle_tick_rel, GateOutcome};
use vstd::prelude::*;

verus! {

#[derive(Clone, Debug)]
pub struct QueueScreen;

impl Default for QueueScreen {
    fn default() -> (r: QueueScreen) {
        QueueScreen
    }
}

impl QueueScreen {
    /// A frame update only checks that a logged-in client exists, building
    /// or requesting one where it does not.
    pub fn tick(&self, app: &mut App, files: &Persisted) -> (r: Option<Message>)
        ensures
            gated_idle_tick_rel(*old(app), *final(app), *files, r),
    {
        match auth_gate(app, files) {
            GateOutcome::Answered(r) => r,
            GateOutcome::Pass => None,
        }
    }

    /// The queue screen takes no keys of its own.
    pub fn handle_key_press(&self, key: Key) -> (r: Option<Message>)
        ensures
            r is None,
    {
        None
    }
}

} // verus!
