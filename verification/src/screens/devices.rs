//! The devices screen: the playback devices as a menu, the active one
//! starred, with selection transferring playback.
use crate::app::{App, Persisted};
use crate::components::menu::Menu;
use crate::key::Key;
use crate::message::Message;
use crate::screens::screen::{auth_gate, auth_gate_rel, GateOutcome};
use crate::spotify::device::{starred_label, Device};
use crate::strings::str_eq;
use vstd::prelude::*;
use vstd::string::StringExecFns;

verus! {

#[derive(Clone, Debug)]
pub struct DevicesScreen {
    pub device: Device,
    pub menu: Menu,
    pub menu_initialized: bool,
}

impl Default for DevicesScreen {
    fn default() -> (r: DevicesScreen)
        ensures
            r.device.available_devices@.len() == 0,
            r.device.current_device_name is None,
            r.menu.menu_items@.len() == 0,
            !r.menu_initialized,
    {
        DevicesScreen {
            device: Device::default(),
            menu: Menu::new(Vec::<String>::new()),
            menu_initialized: false,
        }
    }
}

/// What one frame update does to the screen and the app, and which message
/// it answers with, mirrored step for step by `tick`.
pub open spec fn devices_tick_rel(
    pre: DevicesScreen,
    post: DevicesScreen,
    app_pre: App,
    app_post: App,
    files: Persisted,
    r: Option<Message>,
) -> bool {
    match app_pre.spotify_client {
        Option::Some(c) => {
            if c.credentials is Some {
                &&& app_post == app_pre
                &&& post.device == pre.device
                &&& post.menu == (Menu { menu_items: post.menu.menu_items, ..pre.menu })
                &&& post.menu.menu_items.deep_view() == crate::spotify::device::device_labels(
                    pre.device.available_devices.deep_view(),
                    match pre.device.current_device_name {
                        Option::Some(cur) => Option::Some(cur@),
                        Option::None => Option::None,
                    },
                )
                &&& post.menu_initialized
                &&& if pre.menu_initialized {
                    r is None
                } else {
                    r == Some(Message::RefreshDevice)
                }
            } else {
                auth_gate_rel(app_pre, app_post, files, r) && post == pre
            }
        },
        Option::None => auth_gate_rel(app_pre, app_post, files, r) && post == pre,
    }
}

/// What one key press does to the screen, and which
/// message it answers with, mirrored by `handle_key_press`.
pub open spec fn devices_key_rel(pre: DevicesScreen, post: DevicesScreen, key: Key, r: Option<
    Message,
>) -> bool {
    &&& post.device == pre.device
    &&& post.menu_initialized == pre.menu_initialized
    &&& match key {
                Key::Char(c) => {
                    if c == 'j' && pre.menu.menu_items@.len() > 0 {
                        post.menu == pre.menu.spec_on_key_j() && r is None
                    } else if c == 'k' && pre.menu.menu_items@.len() > 0 {
                        post.menu == pre.menu.spec_on_key_k() && r is None
                    } else if c == 'r' {
                        post.menu == pre.menu && r == Some(Message::RefreshDevice)
                    } else {
                        post.menu == pre.menu && r is None
                    }
                },
                Key::Enter => {
                    let menu = pre.menu;
                    let selected = if menu.current_menu_index < menu.menu_items@.len() {
                        menu.menu_items@[menu.current_menu_index as int]@
                    } else {
                        Seq::<char>::empty()
                    };
                    &&& post.menu == pre.menu
                    &&& if pre.device.current_device_name matches Some(cur) && selected
                        == starred_label(cur@) {
                        r is None
                    } else {
                        match r {
                            Some(m) => m matches Message::SetDevice { name, id } && name@
                                == selected && exists|i: int|
                                0 <= i < pre.device.available_devices@.len() && pre.device.available_devices@[i].0@ == selected && pre.device.available_devices@[i].1@ == id@,
                            None => forall|i: int|
                                0 <= i < pre.device.available_devices@.len() ==> pre.device.available_devices@[i].0@ != selected,
                        }
                    }
                },
                _ => post.menu == pre.menu && r is None,
    }
}

impl DevicesScreen {
    /// A frame update checks for a logged-in client, then mirrors the
    /// device table into the menu; the first update after the screen opens
    /// asks for a device refresh.
    pub fn tick(&mut self, app: &mut App, files: &Persisted) -> (r: Option<Message>)
        ensures
            devices_tick_rel(*old(self), *final(self), *old(app), *final(app), *files, r),
    {
        match auth_gate(app, files) {
            GateOutcome::Answered(r) => r,
            GateOutcome::Pass => {
                self.menu.menu_items = self.device.get_available_devices_names();
                if !self.menu_initialized {
                    self.menu_initialized = true;
                    return Some(Message::RefreshDevice);
                }
                None
            },
        }
    }

    /// Moves through the menu on j and k; r asks for a device refresh, and
    /// enter transfers playback to the selected device unless it is already
    /// the active one.
    pub fn handle_key_press(&mut self, key: Key) -> (r: Option<Message>)
        ensures
            devices_key_rel(*old(self), *final(self), key, r),
    {
        let menu_reply = self.menu.handle_key_press(key);
        if let Option::Some(message) = menu_reply {
            return Some(message);
        }
        match key {
            Key::Char(c) => {
                if c == 'r' {
                    Some(Message::RefreshDevice)
                } else {
                    None
                }
            },
            Key::Enter => {
                let name = self.menu.get_current_item();
                match &self.device.current_device_name {
                    Option::Some(current_device_name) => {
                        let mut starred = String::new();
                        crate::strings::push_char(&mut starred, '*');
                        crate::strings::push_char(&mut starred, ' ');
                        starred.append(current_device_name.as_str());
                        crate::strings::push_char(&mut starred, ' ');
                        crate::strings::push_char(&mut starred, '*');
                        proof {
                            assert(starred@ =~= starred_label(current_device_name@));
                        }
                        if str_eq(name.as_str(), starred.as_str()) {
                            return None;
                        }
                    },
                    Option::None => {},
                }
                match self.device.id_for_name(&name) {
                    Option::Some(id) => Some(Message::SetDevice { id, name }),
                    Option::None => None,
                }
            },
            _ => None,
        }
    }
}

} // verus!
