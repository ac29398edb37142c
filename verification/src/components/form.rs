//! A form of text inputs: one focused input, a shared normal/insert mode,
//! and focus movement between the inputs.
use crate::app::App;
use crate::components::text_input::{edited_by_key, TextInput};
use crate::key::Key;
use crate::message::Message;
use vstd::prelude::*;

verus! {

#[derive(Clone, Copy, Debug, PartialEq, Eq, Structural)]
pub enum FormMode {
    Insert,
    Normal,
}

#[derive(Clone, Debug)]
pub enum InputValue {
    Text(String),
    Boolean(bool),
}

impl InputValue {
    /// The text carried, or the empty string for a non-text value.
    pub fn get_text(&self) -> (r: String)
        ensures
            match self {
                InputValue::Text(v) => r@ == v@,
                _ => r@.len() == 0,
            },
    {
        match self {
            InputValue::Text(value) => value.clone(),
            _ => String::new(),
        }
    }

    /// The boolean carried, or the given default for a non-boolean value.
    pub fn get_boolean(&self, default: bool) -> (r: bool)
        ensures
            match self {
                InputValue::Boolean(v) => r == v,
                _ => r == default,
            },
    {
        match self {
            InputValue::Boolean(value) => *value,
            _ => default,
        }
    }
}

/// Where the focus moves on a downward step: one input further, wrapping to
/// the first.
pub open spec fn focus_down(focused: int, len: int) -> int {
    if focused < len - 1 {
        focused + 1
    } else {
        0int
    }
}

/// Where the focus moves on an upward step: one input back, wrapping to the
/// last.
pub open spec fn focus_up(focused: int, len: int) -> int {
    if focused > 0 {
        focused - 1
    } else {
        len - 1
    }
}

#[derive(Clone, Debug)]
pub struct Form {
    pub inputs: Vec<TextInput>,
    pub focused_input_index: usize,
    pub mode: FormMode,
}

impl Form {
    /// A fresh form over the given inputs, the first one focused.
    pub fn new(inputs: Vec<TextInput>) -> (r: Form)
        requires
            inputs@.len() > 0,
        ensures
            r.inputs@.len() == inputs@.len(),
            r.inputs@[0] == (TextInput { is_focused: true, ..inputs@[0] }),
            forall|j: int| 1 <= j < inputs@.len() ==> r.inputs@[j] == inputs@[j],
            r.focused_input_index == 0,
            r.mode == FormMode::Normal,
    {
        let mut inputs = inputs;
        let mut first = inputs[0].clone();
        first.is_focused = true;
        inputs.set(0, first);
        Form { inputs, focused_input_index: 0, mode: FormMode::Normal }
    }

    /// A frame update flips the app's default key handling off while the
    /// form is in insert mode and back on in normal mode, so that typing
    /// never triggers the global bindings; the form itself stays as it is.
    /// Never answers with a message.
    pub fn tick(&self, app: &mut App) -> (r: Option<Message>)
        ensures
            r is None,
            self.mode == FormMode::Insert ==> !final(app).default_key_press_enabled,
            self.mode == FormMode::Normal ==> final(app).default_key_press_enabled,
            final(app).is_running == old(app).is_running,
            final(app).history == old(app).history,
            final(app).spotify_client == old(app).spotify_client,
            final(app).side_requests == old(app).side_requests,
    {
        if self.mode == FormMode::Insert && app.default_key_press_enabled {
            app.default_key_press_enabled = false;
        }
        if self.mode == FormMode::Normal && !app.default_key_press_enabled {
            app.default_key_press_enabled = true;
        }
        None
    }

    /// Hands the key to every input in order, then moves focus on j and k
    /// in normal mode, switches the shared mode on i and escape, and steps
    /// the focus on tab and back-tab in insert mode. Never answers with a
    /// message.
    #[verifier::rlimit(100)]
    pub fn handle_key_press(&mut self, key: Key) -> (r: Option<Message>)
        ensures
            r is None,
            final(self).inputs@.len() == old(self).inputs@.len(),
            final(self).mode == (match key {
                Key::Char(c) => if c == 'i' {
                    FormMode::Insert
                } else {
                    old(self).mode
                },
                Key::Esc => FormMode::Normal,
                _ => old(self).mode,
            }),
            ({
                let pre = *old(self);
                let post = *final(self);
                let len = pre.inputs@.len() as int;
                // what the key did to each input's editable part
                &&& forall|j: int|
                    0 <= j < len ==> edited_by_key(
                        pre.inputs@[j],
                        post.inputs@[j],
                        key,
                    ) && post.inputs@[j].title == pre.inputs@[j].title && post.inputs@[j].is_password
                        == pre.inputs@[j].is_password && post.inputs@[j].area == pre.inputs@[j].area
                // and what the form did to focus and modes
                &&& match key {
                    Key::Char(c) => {
                        if c == 'j' && pre.mode == FormMode::Normal && pre.focused_input_index
                            < len {
                            &&& post.focused_input_index == focus_down(
                                pre.focused_input_index as int,
                                len,
                            )
                            &&& forall|j: int|
                                0 <= j < len ==> post.inputs@[j].is_focused == (if j
                                    == post.focused_input_index {
                                    true
                                } else if j == pre.focused_input_index {
                                    false
                                } else {
                                    pre.inputs@[j].is_focused
                                }) && post.inputs@[j].mode == pre.inputs@[j].mode
                        } else if c == 'k' && pre.mode == FormMode::Normal
                            && pre.focused_input_index < len {
                            &&& post.focused_input_index == focus_up(
                                pre.focused_input_index as int,
                                len,
                            )
                            &&& forall|j: int|
                                0 <= j < len ==> post.inputs@[j].is_focused == (if j
                                    == post.focused_input_index {
                                    true
                                } else if j == pre.focused_input_index {
                                    false
                                } else {
                                    pre.inputs@[j].is_focused
                                }) && post.inputs@[j].mode == pre.inputs@[j].mode
                        } else if c == 'i' {
                            &&& post.focused_input_index == pre.focused_input_index
                            &&& forall|j: int|
                                0 <= j < len ==> post.inputs@[j].mode == FormMode::Insert
                                    && post.inputs@[j].is_focused == pre.inputs@[j].is_focused
                        } else {
                            &&& post.focused_input_index == pre.focused_input_index
                            &&& forall|j: int|
                                0 <= j < len ==> post.inputs@[j].mode == pre.inputs@[j].mode
                                    && post.inputs@[j].is_focused == pre.inputs@[j].is_focused
                        }
                    },
                    Key::Esc => {
                        &&& post.focused_input_index == pre.focused_input_index
                        &&& forall|j: int|
                            0 <= j < len ==> post.inputs@[j].mode == FormMode::Normal
                                && post.inputs@[j].is_focused == pre.inputs@[j].is_focused
                    },
                    Key::Tab => {
                        if pre.focused_input_index + 1 < len && pre.mode == FormMode::Insert {
                            &&& post.focused_input_index == pre.focused_input_index + 1
                            &&& forall|j: int|
                                0 <= j < len ==> post.inputs@[j].is_focused == (if j
                                    == post.focused_input_index {
                                    true
                                } else if j == pre.focused_input_index {
                                    false
                                } else {
                                    pre.inputs@[j].is_focused
                                }) && post.inputs@[j].mode == pre.inputs@[j].mode
                        } else {
                            &&& post.focused_input_index == pre.focused_input_index
                            &&& forall|j: int|
                                0 <= j < len ==> post.inputs@[j].mode == pre.inputs@[j].mode
                                    && post.inputs@[j].is_focused == pre.inputs@[j].is_focused
                        }
                    },
                    Key::BackTab => {
                        if pre.focused_input_index > 0 && pre.focused_input_index < len && pre.mode
                            == FormMode::Insert {
                            &&& post.focused_input_index == pre.focused_input_index - 1
                            &&& forall|j: int|
                                0 <= j < len ==> post.inputs@[j].is_focused == (if j
                                    == post.focused_input_index {
                                    true
                                } else if j == pre.focused_input_index {
                                    false
                                } else {
                                    pre.inputs@[j].is_focused
                                }) && post.inputs@[j].mode == pre.inputs@[j].mode
                        } else {
                            &&& post.focused_input_index == pre.focused_input_index
                            &&& forall|j: int|
                                0 <= j < len ==> post.inputs@[j].mode == pre.inputs@[j].mode
                                    && post.inputs@[j].is_focused == pre.inputs@[j].is_focused
                        }
                    },
                    _ => {
                        &&& post.focused_input_index == pre.focused_input_index
                        &&& forall|j: int|
                            0 <= j < len ==> post.inputs@[j].mode == pre.inputs@[j].mode
                                && post.inputs@[j].is_focused == pre.inputs@[j].is_focused
                    },
                }
            }),
    {
        let ghost pre_inputs = self.inputs@;
        let mut i: usize = 0;
        while i < self.inputs.len()
            invariant
                self.inputs@.len() == pre_inputs.len(),
                i <= pre_inputs.len(),
                self.focused_input_index == old(self).focused_input_index,
                self.mode == old(self).mode,
                pre_inputs == old(self).inputs@,
                forall|j: int|
                    0 <= j < i ==> edited_by_key(pre_inputs[j], self.inputs@[j], key)
                        && crate::components::text_input::key_keeps_rest(
                        pre_inputs[j],
                        self.inputs@[j],
                    ),
                forall|j: int| i <= j < pre_inputs.len() ==> self.inputs@[j] == pre_inputs[j],
            decreases self.inputs@.len() - i,
        {
            let mut input = self.inputs[i].clone();
            let _ = input.handle_key_press(key);
            self.inputs.set(i, input);
            i = i + 1;
        }
        match key {
            Key::Char(c) => {
                if c == 'j' {
                    if self.mode == FormMode::Normal && self.focused_input_index
                        < self.inputs.len() {
                        let from = self.focused_input_index;
                        self.set_focus(from, false);
                        if self.focused_input_index < self.inputs.len() - 1 {
                            self.focused_input_index = self.focused_input_index + 1;
                        } else {
                            self.focused_input_index = 0;
                        }
                        let to = self.focused_input_index;
                        self.set_focus(to, true);
                    }
                } else if c == 'k' {
                    if self.mode == FormMode::Normal && self.focused_input_index
                        < self.inputs.len() {
                        let from = self.focused_input_index;
                        self.set_focus(from, false);
                        if self.focused_input_index > 0 {
                            self.focused_input_index = self.focused_input_index - 1;
                        } else {
                            self.focused_input_index = self.inputs.len() - 1;
                        }
                        let to = self.focused_input_index;
                        self.set_focus(to, true);
                    }
                } else if c == 'i' {
                    self.mode = FormMode::Insert;
                    self.set_all_modes(FormMode::Insert);
                }
            },
            Key::Esc => {
                self.mode = FormMode::Normal;
                self.set_all_modes(FormMode::Normal);
            },
            Key::Tab => {
                if self.inputs.len() > 0 && self.focused_input_index < self.inputs.len() - 1
                    && self.mode == FormMode::Insert {
                    let from = self.focused_input_index;
                    self.set_focus(from, false);
                    self.focused_input_index = self.focused_input_index + 1;
                    let to = self.focused_input_index;
                    self.set_focus(to, true);
                }
            },
            Key::BackTab => {
                if self.focused_input_index > 0 && self.focused_input_index < self.inputs.len()
                    && self.mode == FormMode::Insert {
                    let from = self.focused_input_index;
                    self.set_focus(from, false);
                    self.focused_input_index = self.focused_input_index - 1;
                    let to = self.focused_input_index;
                    self.set_focus(to, true);
                }
            },
            _ => {},
        }
        None
    }

    /// Sets one input's focus flag; out-of-range indexes are left alone.
    fn set_focus(&mut self, at: usize, focused: bool)
        ensures
            final(self).inputs@.len() == old(self).inputs@.len(),
            final(self).focused_input_index == old(self).focused_input_index,
            final(self).mode == old(self).mode,
            at < old(self).inputs@.len() ==> forall|j: int|
                0 <= j < old(self).inputs@.len() ==> final(self).inputs@[j] == (if j == at {
                    TextInput { is_focused: focused, ..old(self).inputs@[j] }
                } else {
                    old(self).inputs@[j]
                }),
            at >= old(self).inputs@.len() ==> final(self).inputs@ == old(self).inputs@,
    {
        if at < self.inputs.len() {
            let mut input = self.inputs[at].clone();
            input.is_focused = focused;
            self.inputs.set(at, input);
        }
    }

    /// Puts every input into the given mode.
    fn set_all_modes(&mut self, mode: FormMode)
        ensures
            final(self).inputs@.len() == old(self).inputs@.len(),
            final(self).focused_input_index == old(self).focused_input_index,
            final(self).mode == old(self).mode,
            forall|j: int|
                0 <= j < old(self).inputs@.len() ==> final(self).inputs@[j] == (TextInput {
                    mode,
                    ..old(self).inputs@[j]
                }),
    {
        let mut i: usize = 0;
        while i < self.inputs.len()
            invariant
                self.inputs@.len() == old(self).inputs@.len(),
                i <= self.inputs@.len(),
                self.focused_input_index == old(self).focused_input_index,
                self.mode == old(self).mode,
                forall|j: int|
                    0 <= j < i ==> self.inputs@[j] == (TextInput { mode, ..old(self).inputs@[j] }),
                forall|j: int|
                    i <= j < self.inputs@.len() ==> self.inputs@[j] == old(self).inputs@[j],
            decreases self.inputs@.len() - i,
        {
            let mut input = self.inputs[i].clone();
            input.mode = mode;
            self.inputs.set(i, input);
            i = i + 1;
        }
    }
}

} // verus!
