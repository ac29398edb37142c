//! The code-entry screen: one text field for the authorization code the
//! login redirect displayed.
use crate::app::App;
use crate::components::form::Form;
use crate::components::text_input::TextInput;
use crate::key::Key;
use crate::message::Message;
use vstd::prelude::*;

verus! {

#[derive(Clone, Debug)]
pub struct EnterAuthCodeScreen {
    pub form: Form,
}

impl Default for EnterAuthCodeScreen {
    fn default() -> (r: EnterAuthCodeScreen)
        ensures
            r.form.inputs@.len() == 1,
            r.form.inputs@[0].value@.len() == 0,
            r.form.focused_input_index == 0,
    {
        proof {
            reveal_strlit("");
        }
        let code_input = TextInput::new("Code", "", false);
        let mut inputs = Vec::<TextInput>::new();
        inputs.push(code_input);
        EnterAuthCodeScreen { form: Form::new(inputs) }
    }
}

/// What one frame update does to the screen and the app, mirrored by
/// `tick`: only the global-bindings flag follows the form's mode.
pub open spec fn enter_code_tick_rel(
    pre: EnterAuthCodeScreen,
    post: EnterAuthCodeScreen,
    app_pre: App,
    app_post: App,
    r: Option<Message>,
) -> bool {
    &&& r is None
    &&& post == pre
    &&& (pre.form.mode == crate::components::form::FormMode::Insert
        ==> !app_post.default_key_press_enabled)
    &&& (pre.form.mode == crate::components::form::FormMode::Normal
        ==> app_post.default_key_press_enabled)
    &&& app_post.is_running == app_pre.is_running
    &&& app_post.history == app_pre.history
    &&& app_post.spotify_client == app_pre.spotify_client
    &&& app_post.side_requests == app_pre.side_requests
}

/// What one key press does to the screen, and which message it answers
/// with, mirrored by `handle_key_press`: every input takes the key's edit,
/// and enter hands the code field's text over.
pub open spec fn enter_code_key_rel(
    pre: EnterAuthCodeScreen,
    post: EnterAuthCodeScreen,
    key: Key,
    r: Option<Message>,
) -> bool {
    &&& post.form.inputs@.len() == pre.form.inputs@.len()
    &&& forall|j: int|
        0 <= j < pre.form.inputs@.len() ==> crate::components::text_input::edited_by_key(
            pre.form.inputs@[j],
            post.form.inputs@[j],
            key,
        ) && post.form.inputs@[j].title == pre.form.inputs@[j].title
            && post.form.inputs@[j].is_password == pre.form.inputs@[j].is_password
            && post.form.inputs@[j].area == pre.form.inputs@[j].area
    &&& match key {
        Key::Enter => r matches Some(m) && m matches Message::SetAuthCode { code } && code@
            == post.code_view(),
        _ => r is None,
    }
}

impl EnterAuthCodeScreen {
    /// The code typed so far: the first input's text.
    pub open spec fn code_view(self) -> Seq<char> {
        if self.form.inputs@.len() > 0 {
            self.form.inputs@[0].value@
        } else {
            Seq::<char>::empty()
        }
    }

    pub fn get_code(&self) -> (r: String)
        ensures
            r@ == self.code_view(),
    {
        if self.form.inputs.len() > 0 {
            self.form.inputs[0].get_value().get_text()
        } else {
            String::new()
        }
    }

    /// A frame update only keeps the global key bindings in step with the
    /// form's mode.
    pub fn tick(&mut self, app: &mut App) -> (r: Option<Message>)
        ensures
            enter_code_tick_rel(*old(self), *final(self), *old(app), *final(app), r),
    {
        let _ = self.form.tick(app);
        None
    }

    /// Typing goes to the form; enter hands the typed code to the
    /// dispatcher.
    pub fn handle_key_press(&mut self, key: Key) -> (r: Option<Message>)
        ensures
            enter_code_key_rel(*old(self), *final(self), key, r),
    {
        let form_reply = self.form.handle_key_press(key);
        if let Option::Some(message) = form_reply {
            return Some(message);
        }
        match key {
            Key::Enter => Some(Message::SetAuthCode { code: self.get_code() }),
            _ => None,
        }
    }
}

} // verus!
