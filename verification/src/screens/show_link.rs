//! The login screen: shows the authorization link and offers to copy it,
//! open it in a browser, or move on to entering the code it yields.
use crate::app::{App, SideRequest};
use crate::components::menu::Menu;
use crate::key::Key;
use crate::message::Message;
use crate::screens::enter_code::EnterAuthCodeScreen;
use crate::screens::screen::Screen;
use crate::strings::{str_eq, ToStringVec};
use vstd::prelude::*;

verus! {

#[derive(Clone, Debug)]
pub struct ShowAuthLinkScreen {
    pub auth_url: String,
    pub menu: Menu,
    pub clipboard_is_copied: bool,
}

/// What one key press does to the screen and the app, and which
/// message it answers with, mirrored by `handle_key_press`.
pub open spec fn show_link_key_rel(pre: ShowAuthLinkScreen,
    post: ShowAuthLinkScreen,
    app_pre: App,
    app_post: App,
    key: Key,
    r: Option<Message>,) -> bool {
    &&& post.auth_url == pre.auth_url
    &&& app_post.is_running == app_pre.is_running
    &&& app_post.history == app_pre.history
    &&& app_post.spotify_client == app_pre.spotify_client
    &&& app_post.default_key_press_enabled == app_pre.default_key_press_enabled
    &&& match key {
                Key::Enter => {
                    let item = pre.menu;
                    let selected = if item.current_menu_index < item.menu_items@.len() {
                        item.menu_items@[item.current_menu_index as int]@
                    } else {
                        Seq::<char>::empty()
                    };
                    &&& post.menu == pre.menu
                    &&& if selected == "Copy To Clipboard"@ {
                        &&& r is None
                        &&& post.clipboard_is_copied
                        &&& app_post.side_requests@.len() == app_pre.side_requests@.len() + 1
                        &&& app_post.side_requests@.last() matches SideRequest::CopyToClipboard(u)
                            && u@ == pre.auth_url@
                    } else if selected == "Open In Browser"@ {
                        &&& r is None
                        &&& post.clipboard_is_copied == pre.clipboard_is_copied
                        &&& app_post.side_requests@.len() == app_pre.side_requests@.len() + 1
                        &&& app_post.side_requests@.last() matches SideRequest::OpenInBrowser(u)
                            && u@ == pre.auth_url@
                    } else if selected == "Enter Code"@ {
                        &&& app_post.side_requests == app_pre.side_requests
                        &&& post.clipboard_is_copied == pre.clipboard_is_copied
                        &&& r matches Some(m) && m matches Message::ChangeScreen { new_screen }
                            && *new_screen matches Screen::EnterAuthCode(_)
                    } else {
                        &&& app_post.side_requests == app_pre.side_requests
                        &&& post.clipboard_is_copied == pre.clipboard_is_copied
                        &&& r is None
                    }
                },
                Key::Char(c) => {
                    &&& r is None
                    &&& app_post.side_requests == app_pre.side_requests
                    &&& post.clipboard_is_copied == pre.clipboard_is_copied
                    &&& if c == 'j' && pre.menu.menu_items@.len() > 0 {
                        post.menu == pre.menu.spec_on_key_j()
                    } else if c == 'k' && pre.menu.menu_items@.len() > 0 {
                        post.menu == pre.menu.spec_on_key_k()
                    } else {
                        post.menu == pre.menu
                    }
                },
                _ => {
                    &&& r is None
                    &&& post.menu == pre.menu
                    &&& post.clipboard_is_copied == pre.clipboard_is_copied
                    &&& app_post.side_requests == app_pre.side_requests
                },
    }
}

impl ShowAuthLinkScreen {
    pub fn new(auth_url: String) -> (r: ShowAuthLinkScreen)
        ensures
            r.auth_url == auth_url,
            r.menu.menu_items@.len() == 3,
            r.menu.current_menu_index == 0,
            r.menu.current_page == 1,
            !r.clipboard_is_copied,
    {
        let mut options = Vec::<&str>::new();
        options.push("Copy To Clipboard");
        options.push("Open In Browser");
        options.push("Enter Code");
        let menu_options = options.to_string_vec();
        proof {
            assert(menu_options@.len() == menu_options.deep_view().len());
            assert(options@.len() == options.deep_view().len());
        }
        ShowAuthLinkScreen { auth_url, menu: Menu::new(menu_options), clipboard_is_copied: false }
    }

    /// A frame update leaves the screen alone and never answers with a
    /// message.
    pub fn tick(&self) -> (r: Option<Message>)
        ensures
            r is None,
    {
        None
    }

    /// Moves through the menu on j and k; enter performs the selected
    /// option: copying and opening are queued for the surrounding program,
    /// entering the code changes to the code screen.
    pub fn handle_key_press(&mut self, app: &mut App, key: Key) -> (r: Option<Message>)
        ensures
            show_link_key_rel(*old(self), *final(self), *old(app), *final(app), key, r),
    {
        let menu_reply = self.menu.handle_key_press(key);
        if let Option::Some(message) = menu_reply {
            return Some(message);
        }
        match key {
            Key::Enter => {
                let item = self.menu.get_current_item();
                if str_eq(item.as_str(), "Copy To Clipboard") {
                    app.side_requests.push(SideRequest::CopyToClipboard(self.auth_url.clone()));
                    self.clipboard_is_copied = true;
                    None
                } else if str_eq(item.as_str(), "Open In Browser") {
                    app.side_requests.push(SideRequest::OpenInBrowser(self.auth_url.clone()));
                    None
                } else if str_eq(item.as_str(), "Enter Code") {
                    Some(
                        Message::ChangeScreen {
                            new_screen: Box::new(
                                Screen::EnterAuthCode(EnterAuthCodeScreen::default()),
                            ),
                        },
                    )
                } else {
                    None
                }
            },
            _ => None,
        }
    }
}

} // verus!
