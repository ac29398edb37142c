//! The error screen: shows what went wrong and offers a retry. Every failed
//! action in the dispatcher lands here.
use crate::app::App;
use crate::key::Key;
use crate::message::Message;
use vstd::prelude::*;

verus! {

#[derive(Clone, Debug)]
pub struct ErrorScreen {
    message: Option<String>,
}

impl Default for ErrorScreen {
    fn default() -> (r: ErrorScreen)
        ensures
            r.message_view() is None,
    {
        ErrorScreen { message: None }
    }
}

/// What one key press does: y retries by stepping back, n gives up and
/// stops the run loop, anything else is ignored. Mirrored by
/// `handle_key_press`.
pub open spec fn error_key_rel(app_pre: App, app_post: App, key: Key, r: Option<Message>) -> bool {
    match key {
        Key::Char(c) => {
            if c == 'y' {
                &&& r == Some(Message::GoToPrevScreen)
                &&& app_post == app_pre
            } else if c == 'n' {
                &&& r is None
                &&& app_post == (App { is_running: false, ..app_pre })
            } else {
                r is None && app_post == app_pre
            }
        },
        _ => r is None && app_post == app_pre,
    }
}

impl ErrorScreen {
    /// The message shown, if the screen carries one.
    pub closed spec fn message_view(self) -> Option<Seq<char>> {
        match self.message {
            Option::Some(m) => Some(m@),
            Option::None => None,
        }
    }

    pub fn new(message: &str) -> (r: ErrorScreen)
        ensures
            r.message_view() == Some(message@),
    {
        ErrorScreen { message: Some(message.to_owned()) }
    }

    pub fn from_string(message: String) -> (r: ErrorScreen)
        ensures
            r.message_view() == Some(message@),
    {
        ErrorScreen { message: Some(message) }
    }

    pub fn get_message(&self) -> (r: &Option<String>)
        ensures
            match r {
                Option::Some(m) => self.message_view() == Some(m@),
                Option::None => self.message_view() is None,
            },
    {
        &self.message
    }

    /// A frame update leaves the screen alone and never answers with a
    /// message.
    pub fn tick(&self) -> (r: Option<Message>)
        ensures
            r is None,
    {
        None
    }

    /// y retries by stepping back to the screen that failed; n gives up and
    /// stops the run loop.
    pub fn handle_key_press(&self, app: &mut App, key: Key) -> (r: Option<Message>)
        ensures
            error_key_rel(*old(app), *final(app), key, r),
    {
        match key {
            Key::Char(c) => {
                if c == 'y' {
                    Some(Message::GoToPrevScreen)
                } else if c == 'n' {
                    app.is_running = false;
                    None
                } else {
                    None
                }
            },
            _ => None,
        }
    }
}

} // verus!
