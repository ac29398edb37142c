//! The configuration form: four text fields for the client id and secret,
//! the redirect URI and the scope, submitted into a fresh client.
use crate::app::{App, SideRequest};
use crate::components::form::{Form, FormMode};
use crate::components::text_input::TextInput;
use crate::config::Config;
use crate::key::Key;
use crate::message::Message;
use crate::screens::error::ErrorScreen;
use crate::screens::screen::Screen;
use crate::screens::show_link::ShowAuthLinkScreen;
use crate::spotify::client::SpotifyClient;
use vstd::prelude::*;

verus! {

/// The placeholder a field starts from: the configured value, or empty.
pub open spec fn placeholder_of(v: Option<String>) -> Seq<char> {
    match v {
        Option::Some(s) => s@,
        Option::None => Seq::<char>::empty(),
    }
}

#[derive(Clone, Debug)]
pub struct CreateConfigFormScreen {
    pub form: Form,
}

/// What one frame update does to the screen and the app, and which message
/// it answers with, mirrored by `tick`.
pub open spec fn create_config_tick_rel(
    pre: CreateConfigFormScreen,
    post: CreateConfigFormScreen,
    app_pre: App,
    app_post: App,
    r: Option<Message>,
) -> bool {
    &&& post == pre
    &&& app_post.is_running == app_pre.is_running
    &&& app_post.history == app_pre.history
    &&& app_post.spotify_client == app_pre.spotify_client
    &&& app_post.side_requests == app_pre.side_requests
    &&& (pre.form.mode == FormMode::Insert ==> !app_post.default_key_press_enabled)
    &&& (pre.form.mode == FormMode::Normal ==> app_post.default_key_press_enabled)
    &&& match app_pre.spotify_client {
        Option::Some(c) => r matches Some(m) && m matches Message::ChangeScreen { new_screen }
            && *new_screen matches Screen::ShowAuthLink(s) && s.auth_url@ == c.auth_url@,
        Option::None => r is None,
    }
}

/// What one key press does to the screen and the app, and which
/// message it answers with, mirrored by `handle_key_press`.
pub open spec fn create_config_key_rel(pre: CreateConfigFormScreen,
    post: CreateConfigFormScreen,
    app_pre: App,
    app_post: App,
    key: Key,
    r: Option<Message>,) -> bool {
    &&& r matches Some(m) ==> (m matches Message::ChangeScreen { new_screen } && (*new_screen
                matches Screen::ShowAuthLink(_) || *new_screen matches Screen::Error(_)))
    &&& app_post.is_running == app_pre.is_running
    &&& app_post.history == app_pre.history
    &&& app_post.default_key_press_enabled == app_pre.default_key_press_enabled
    &&& !(key == Key::Enter && pre.form.mode == FormMode::Normal) ==> app_post.spotify_client == app_pre.spotify_client && app_post.side_requests == app_pre.side_requests
    &&& key == Key::Enter && pre.form.mode == FormMode::Normal && pre.form.inputs@.len() == 4 ==> ({
                let submitted = Config {
                    client_id: Some(pre.form.inputs@[0].value),
                    client_secret: Some(pre.form.inputs@[1].value),
                    redirect_uri: Some(pre.form.inputs@[2].value),
                    scope: Some(pre.form.inputs@[3].value),
                };
                if crate::spotify::client::url_parse_ok(
                    "https://accounts.spotify.com/authorize"@,
                ) {
                    &&& app_post.spotify_client matches Some(c) && c.config.client_id
                        matches Some(v) && v@ == submitted.client_id->Some_0@
                    &&& app_post.spotify_client->Some_0.config.client_secret matches Some(v) && v@
                        == submitted.client_secret->Some_0@
                    &&& app_post.spotify_client->Some_0.config.redirect_uri matches Some(v) && v@
                        == submitted.redirect_uri->Some_0@
                    &&& app_post.spotify_client->Some_0.config.scope matches Some(v) && v@
                        == submitted.scope->Some_0@
                    &&& app_post.side_requests@.len() == app_pre.side_requests@.len() + 1
                    &&& app_post.side_requests@.last() matches SideRequest::SaveConfig(cfg)
                        && cfg.client_id matches Some(v) && v@ == submitted.client_id->Some_0@
                    &&& r matches Some(m) && m matches Message::ChangeScreen { new_screen }
                        && *new_screen matches Screen::ShowAuthLink(s) && s.auth_url@ == app_post.spotify_client->Some_0.auth_url@
                } else {
                    &&& app_post.spotify_client == app_pre.spotify_client
                    &&& app_post.side_requests == app_pre.side_requests
                    &&& r matches Some(m) && m matches Message::ChangeScreen { new_screen }
                        && *new_screen matches Screen::Error(_)
                }
            })
}

impl CreateConfigFormScreen {
    /// Whether the form's four fields start from the given configuration's
    /// values.
    pub open spec fn reflects_config(self, config: Config) -> bool {
        &&& self.form.inputs@.len() == 4
        &&& self.form.inputs@[0].value@ == placeholder_of(config.client_id)
        &&& self.form.inputs@[1].value@ == placeholder_of(config.client_secret)
        &&& self.form.inputs@[2].value@ == placeholder_of(config.redirect_uri)
        &&& self.form.inputs@[3].value@ == placeholder_of(config.scope)
    }

    pub fn new(config: &Config) -> (r: CreateConfigFormScreen)
        ensures
            r.reflects_config(*config),
            r.form.focused_input_index == 0,
            r.form.mode == FormMode::Normal,
    {
        let client_id_placeholder = match &config.client_id {
            Option::Some(v) => v.clone(),
            Option::None => String::new(),
        };
        let client_secret_placeholder = match &config.client_secret {
            Option::Some(v) => v.clone(),
            Option::None => String::new(),
        };
        let redirect_uri_placeholder = match &config.redirect_uri {
            Option::Some(v) => v.clone(),
            Option::None => String::new(),
        };
        let scope_placeholder = match &config.scope {
            Option::Some(v) => v.clone(),
            Option::None => String::new(),
        };
        proof {
            reveal_strlit("");
        }
        let mut inputs = Vec::<TextInput>::new();
        inputs.push(TextInput::new("Client ID", client_id_placeholder.as_str(), false));
        inputs.push(TextInput::new("Client Secret", client_secret_placeholder.as_str(), false));
        inputs.push(TextInput::new("Redirect URI", redirect_uri_placeholder.as_str(), false));
        inputs.push(TextInput::new("Scope", scope_placeholder.as_str(), false));
        let ghost built = inputs@;
        let form = Form::new(inputs);
        proof {
            assert(form.inputs@[1] == built[1]);
            assert(form.inputs@[2] == built[2]);
            assert(form.inputs@[3] == built[3]);
        }
        CreateConfigFormScreen { form }
    }

    pub fn get_client_id(&self) -> (r: String)
        ensures
            self.form.inputs@.len() > 0 ==> r@ == self.form.inputs@[0].value@,
    {
        if self.form.inputs.len() > 0 {
            self.form.inputs[0].get_value().get_text()
        } else {
            String::new()
        }
    }

    pub fn get_client_secret(&self) -> (r: String)
        ensures
            self.form.inputs@.len() > 1 ==> r@ == self.form.inputs@[1].value@,
    {
        if self.form.inputs.len() > 1 {
            self.form.inputs[1].get_value().get_text()
        } else {
            String::new()
        }
    }

    pub fn get_redirect_uri(&self) -> (r: String)
        ensures
            self.form.inputs@.len() > 2 ==> r@ == self.form.inputs@[2].value@,
    {
        if self.form.inputs.len() > 2 {
            self.form.inputs[2].get_value().get_text()
        } else {
            String::new()
        }
    }

    pub fn get_scope(&self) -> (r: String)
        ensures
            self.form.inputs@.len() > 3 ==> r@ == self.form.inputs@[3].value@,
    {
        if self.form.inputs.len() > 3 {
            self.form.inputs[3].get_value().get_text()
        } else {
            String::new()
        }
    }

    /// A frame update keeps the global key bindings in step with the form's
    /// mode; once a client exists the screen moves on to the login link.
    pub fn tick(&mut self, app: &mut App) -> (r: Option<Message>)
        ensures
            create_config_tick_rel(*old(self), *final(self), *old(app), *final(app), r),
    {
        let _ = self.form.tick(app);
        match &app.spotify_client {
            Option::Some(spotify_client) => {
                let new_screen = ShowAuthLinkScreen::new(spotify_client.auth_url.clone());
                Some(Message::ChangeScreen { new_screen: Box::new(Screen::ShowAuthLink(new_screen)) })
            },
            Option::None => None,
        }
    }

    /// Typing goes to the form. Enter in normal mode submits: the typed
    /// values become the new configuration, a client is built from it, the
    /// configuration is queued to be written out, and the screen moves on
    /// to the login link; a rejected configuration lands on the error
    /// screen instead.
    pub fn handle_key_press(&mut self, app: &mut App, key: Key) -> (r: Option<Message>)
        ensures
            create_config_key_rel(*old(self), *final(self), *old(app), *final(app), key, r),
    {
        let form_reply = self.form.handle_key_press(key);
        if let Option::Some(message) = form_reply {
            return Some(message);
        }
        match key {
            Key::Enter => {
                if self.form.mode == FormMode::Normal {
                    let new_config = Config {
                        client_id: Some(self.get_client_id()),
                        client_secret: Some(self.get_client_secret()),
                        redirect_uri: Some(self.get_redirect_uri()),
                        scope: Some(self.get_scope()),
                    };
                    let built = SpotifyClient::new(new_config.clone(), None);
                    match built {
                        Result::Ok(spotify_client) => {
                            let auth_url = spotify_client.auth_url.clone();
                            app.side_requests.push(SideRequest::SaveConfig(new_config));
                            app.spotify_client = Some(spotify_client);
                            Some(
                                Message::ChangeScreen {
                                    new_screen: Box::new(
                                        Screen::ShowAuthLink(ShowAuthLinkScreen::new(auth_url)),
                                    ),
                                },
                            )
                        },
                        Result::Err(error) => {
                            let new_screen = ErrorScreen::from_string(error.message().clone());
                            Some(
                                Message::ChangeScreen {
                                    new_screen: Box::new(Screen::Error(new_screen)),
                                },
                            )
                        },
                    }
                } else {
                    None
                }
            },
            _ => None,
        }
    }
}

} // verus!
