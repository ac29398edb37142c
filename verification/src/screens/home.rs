//! The home screen: the main menu, and the place where a missing client or
//! missing login is noticed and routed to the right screen.
use crate::app::{App, Persisted};
use crate::components::menu::Menu;
use crate::key::Key;
use crate::message::Message;
use crate::screens::devices::DevicesScreen;
use crate::screens::error::ErrorScreen;
use crate::screens::library::LibraryScreen;
use crate::screens::now_playing::NowPlayingScreen;
use crate::screens::queue::QueueScreen;
use crate::screens::screen::{auth_gate, gated_idle_tick_rel, GateOutcome, Screen};
use crate::screens::search::SearchScreen;
use crate::screens::view_album::ViewAlbumScreen;
use crate::screens::view_artist::ViewArtistScreen;
use crate::strings::{str_eq, ToStringVec};
use vstd::prelude::*;

verus! {

#[derive(Clone, Debug)]
pub struct HomeScreen {
    pub menu: Menu,
}

impl Default for HomeScreen {
    fn default() -> (r: HomeScreen)
        ensures
            r.menu.menu_items@.len() == 7,
            r.menu.current_menu_index == 0,
            r.menu.current_page == 1,
    {
        let mut items = Vec::<&str>::new();
        items.push("Now Playing");
        items.push("View Artist");
        items.push("View Album");
        items.push("Queue");
        items.push("Search");
        items.push("Library");
        items.push("Devices");
        let menu_items = items.to_string_vec();
        proof {
            assert(menu_items@.len() == menu_items.deep_view().len());
            assert(items@.len() == items.deep_view().len());
        }
        HomeScreen { menu: Menu::new(menu_items) }
    }
}

/// What one key press does to the screen, and which
/// message it answers with, mirrored by `handle_key_press`.
pub open spec fn home_key_rel(pre: HomeScreen, post: HomeScreen, key: Key, r: Option<
    Message,
>) -> bool {
    &&& match key {
                Key::Char(c) => {
                    if c == 'j' && pre.menu.menu_items@.len() > 0 {
                        post.menu == pre.menu.spec_on_key_j() && r is None
                    } else if c == 'k' && pre.menu.menu_items@.len() > 0 {
                        post.menu == pre.menu.spec_on_key_k() && r is None
                    } else if c == 'e' {
                        &&& post.menu == pre.menu
                        &&& r matches Some(m) && m matches Message::ChangeScreen { new_screen }
                            && *new_screen matches Screen::Error(_)
                    } else {
                        post.menu == pre.menu && r is None
                    }
                },
                Key::Enter => {
                    let item = pre.menu;
                    let selected = if item.current_menu_index < item.menu_items@.len() {
                        item.menu_items@[item.current_menu_index as int]@
                    } else {
                        Seq::<char>::empty()
                    };
                    &&& post.menu == pre.menu
                    &&& if selected == "Now Playing"@ {
                        r matches Some(m) && m matches Message::ChangeScreen { new_screen }
                            && *new_screen matches Screen::NowPlaying(_)
                    } else if selected == "View Artist"@ {
                        r matches Some(m) && m matches Message::ChangeScreen { new_screen }
                            && *new_screen matches Screen::ViewArtist(_)
                    } else if selected == "View Album"@ {
                        r matches Some(m) && m matches Message::ChangeScreen { new_screen }
                            && *new_screen matches Screen::ViewAlbum(_)
                    } else if selected == "Queue"@ {
                        r matches Some(m) && m matches Message::ChangeScreen { new_screen }
                            && *new_screen matches Screen::Queue(_)
                    } else if selected == "Search"@ {
                        r matches Some(m) && m matches Message::ChangeScreen { new_screen }
                            && *new_screen matches Screen::Search(_)
                    } else if selected == "Library"@ {
                        r matches Some(m) && m matches Message::ChangeScreen { new_screen }
                            && *new_screen matches Screen::Library(_)
                    } else if selected == "Devices"@ {
                        r matches Some(m) && m matches Message::ChangeScreen { new_screen }
                            && *new_screen matches Screen::Devices(_)
                    } else {
                        r is None
                    }
                },
                _ => post.menu == pre.menu && r is None,
    }
}

impl HomeScreen {
    /// A frame update checks that a logged-in client exists: with none and
    /// an incomplete configuration it changes to the configuration form,
    /// with a complete configuration it builds the client, and with a
    /// client that still lacks credentials it changes to the login link.
    pub fn tick(&self, app: &mut App, files: &Persisted) -> (r: Option<Message>)
        ensures
            gated_idle_tick_rel(*old(app), *final(app), *files, r),
    {
        match auth_gate(app, files) {
            GateOutcome::Answered(r) => r,
            GateOutcome::Pass => None,
        }
    }

    /// Moves through the menu on j and k; enter opens the selected screen,
    /// and e opens the error screen.
    pub fn handle_key_press(&mut self, key: Key) -> (r: Option<Message>)
        ensures
            home_key_rel(*old(self), *final(self), key, r),
    {
        let menu_reply = self.menu.handle_key_press(key);
        if let Option::Some(message) = menu_reply {
            return Some(message);
        }
        match key {
            Key::Enter => {
                let item = self.menu.get_current_item();
                if str_eq(item.as_str(), "Now Playing") {
                    Some(
                        Message::ChangeScreen {
                            new_screen: Box::new(Screen::NowPlaying(NowPlayingScreen::default())),
                        },
                    )
                } else if str_eq(item.as_str(), "View Artist") {
                    Some(
                        Message::ChangeScreen {
                            new_screen: Box::new(Screen::ViewArtist(ViewArtistScreen::default())),
                        },
                    )
                } else if str_eq(item.as_str(), "View Album") {
                    Some(
                        Message::ChangeScreen {
                            new_screen: Box::new(Screen::ViewAlbum(ViewAlbumScreen::default())),
                        },
                    )
                } else if str_eq(item.as_str(), "Queue") {
                    Some(
                        Message::ChangeScreen {
                            new_screen: Box::new(Screen::Queue(QueueScreen::default())),
                        },
                    )
                } else if str_eq(item.as_str(), "Search") {
                    Some(
                        Message::ChangeScreen {
                            new_screen: Box::new(Screen::Search(SearchScreen::default())),
                        },
                    )
                } else if str_eq(item.as_str(), "Library") {
                    Some(
                        Message::ChangeScreen {
                            new_screen: Box::new(Screen::Library(LibraryScreen::default())),
                        },
                    )
                } else if str_eq(item.as_str(), "Devices") {
                    Some(
                        Message::ChangeScreen {
                            new_screen: Box::new(Screen::Devices(DevicesScreen::default())),
                        },
                    )
                } else {
                    None
                }
            },
            Key::Char(c) => {
                if c == 'e' {
                    Some(
                        Message::ChangeScreen {
                            new_screen: Box::new(Screen::Error(ErrorScreen::default())),
                        },
                    )
                } else {
                    None
                }
            },
            _ => None,
        }
    }
}

} // verus!
