//! The process-wide state the dispatch loop owns: the running flag, the
//! navigation history, the optional authenticated client, and the toggle
//! for the global key bindings.
use crate::config::Config;
use crate::key::Key;
use crate::message::Message;
use crate::screens::exit::ExitScreen;
use crate::screens::screen::Screen;
use crate::spotify::client::{Credentials, SpotifyClient};
use vstd::prelude::*;

verus! {

/// The two navigation stacks: `prev` holds the screens behind the current
/// one, `next` the screens ahead of it, both in navigation order.
#[derive(Debug)]
pub struct History {
    pub prev: Vec<Screen>,
    pub next: Vec<Screen>,
}

impl Default for History {
    fn default() -> (r: History)
        ensures
            r.prev@.len() == 0,
            r.next@.len() == 0,
    {
        History { prev: Vec::<Screen>::new(), next: Vec::<Screen>::new() }
    }
}

/// What the configuration directory currently holds, read by the
/// surrounding program and handed to the frame update.
#[derive(Clone, Debug)]
pub struct Persisted {
    pub config: Config,
    pub credentials: Option<Credentials>,
}

/// A side effect a screen asks the surrounding program to perform: writing
/// the configuration file, or putting the authorization link on the
/// clipboard or into a browser.
#[derive(Debug)]
pub enum SideRequest {
    SaveConfig(Config),
    CopyToClipboard(String),
    OpenInBrowser(String),
}

#[derive(Debug)]
pub struct App {
    pub is_running: bool,
    pub history: History,
    pub spotify_client: Option<SpotifyClient>,
    pub default_key_press_enabled: bool,
    /// Side effects queued for the surrounding program, oldest first.
    pub side_requests: Vec<SideRequest>,
}

impl App {
    pub fn new() -> (r: App)
        ensures
            r.is_running,
            r.history.prev@.len() == 0,
            r.history.next@.len() == 0,
            r.spotify_client is None,
            r.default_key_press_enabled,
            r.side_requests@.len() == 0,
    {
        App {
            is_running: true,
            history: History::default(),
            spotify_client: None,
            default_key_press_enabled: true,
            side_requests: Vec::<SideRequest>::new(),
        }
    }

    /// The global key bindings every screen gets for free while it leaves
    /// them enabled: history navigation on H and L, and the exit prompt on
    /// escape.
    pub fn handle_default_key_press(&self, key: Key) -> (r: Option<Message>)
        ensures
            !self.default_key_press_enabled ==> r is None,
            self.default_key_press_enabled ==> match key {
                Key::Char(c) => {
                    if c == 'H' {
                        r == Some(Message::GoToPrevScreen)
                    } else if c == 'L' {
                        r == Some(Message::GoToNextScreen)
                    } else {
                        r is None
                    }
                },
                Key::Esc => r matches Some(m) && m matches Message::ChangeScreen { new_screen }
                    && *new_screen matches Screen::Exit(_),
                _ => r is None,
            },
    {
        if self.default_key_press_enabled {
            match key {
                Key::Char(c) => {
                    if c == 'H' {
                        return Some(Message::GoToPrevScreen);
                    }
                    if c == 'L' {
                        return Some(Message::GoToNextScreen);
                    }
                    None
                },
                Key::Esc => Some(
                    Message::ChangeScreen {
                        new_screen: Box::new(Screen::Exit(ExitScreen::default())),
                    },
                ),
                _ => None,
            }
        } else {
            None
        }
    }
}

} // verus!
