//! The exit confirmation prompt. It disables the global key bindings so the
//! confirmation keys are its own, and it is never recorded into history.
use crate::app::App;
use crate::key::Key;
use crate::message::Message;
use vstd::prelude::*;

verus! {

#[derive(Clone, Debug)]
pub struct ExitScreen;

impl Default for ExitScreen {
    fn default() -> (r: ExitScreen) {
        ExitScreen
    }
}

/// What one key press does: y stops the run loop, n steps back, anything
/// else is ignored. Mirrored by `handle_key_press`.
pub open spec fn exit_key_rel(app_pre: App, app_post: App, key: Key, r: Option<Message>) -> bool {
    match key {
        Key::Char(c) => {
            if c == 'y' {
                &&& r is None
                &&& app_post == (App { is_running: false, ..app_pre })
            } else if c == 'n' {
                &&& r == Some(Message::GoToPrevScreen)
                &&& app_post == app_pre
            } else {
                r is None && app_post == app_pre
            }
        },
        _ => r is None && app_post == app_pre,
    }
}

impl ExitScreen {
    /// A frame update leaves the prompt alone and never answers with a
    /// message.
    pub fn tick(&self) -> (r: Option<Message>)
        ensures
            r is None,
    {
        None
    }

    /// y confirms and stops the run loop; n steps back to the screen the
    /// prompt covered.
    pub fn handle_key_press(&self, app: &mut App, key: Key) -> (r: Option<Message>)
        ensures
            exit_key_rel(*old(app), *final(app), key, r),
    {
        match key {
            Key::Char(c) => {
                if c == 'y' {
                    app.is_running = false;
                    None
                } else if c == 'n' {
                    Some(Message::GoToPrevScreen)
                } else {
                    None
                }
            },
            _ => None,
        }
    }
}

} // verus!
