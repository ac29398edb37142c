//! A single-line text field with an insert mode, a cursor and a horizontal
//! scroll window.
use crate::components::form::{FormMode, InputValue};
use crate::key::Key;
use crate::message::Message;
use crate::rect::Rect;
use vstd::prelude::*;
use vstd::string::StrSliceExecFns;
use vstd::string::StringExecFns;

verus! {

/// The characters with one inserted at position `i`, or appended when `i`
/// lies past the end.
pub open spec fn inserted_at(s: Seq<char>, i: int, c: char) -> Seq<char> {
    if i >= s.len() {
        s.push(c)
    } else {
        s.subrange(0, i) + seq![c] + s.subrange(i, s.len() as int)
    }
}

/// The characters with the one at position `i` removed; unchanged when `i`
/// lies past the end.
pub open spec fn removed_at(s: Seq<char>, i: int) -> Seq<char> {
    if 0 <= i < s.len() {
        s.subrange(0, i) + s.subrange(i + 1, s.len() as int)
    } else {
        s
    }
}

/// The characters without the last one; unchanged when empty.
pub open spec fn popped(s: Seq<char>) -> Seq<char> {
    if s.len() > 0 {
        s.drop_last()
    } else {
        s
    }
}

#[derive(Debug)]
pub struct TextInput {
    pub title: String,
    pub value: String,
    pub mode: FormMode,
    pub is_focused: bool,
    pub is_password: bool,
    pub area: Option<Rect>,
    pub scroll_offset: u16,
    pub cursor_position: usize,
}

impl Clone for TextInput {
    fn clone(&self) -> (r: TextInput)
        ensures
            r == *self,
    {
        TextInput {
            title: self.title.clone(),
            value: self.value.clone(),
            mode: self.mode,
            is_focused: self.is_focused,
            is_password: self.is_password,
            area: self.area,
            scroll_offset: self.scroll_offset,
            cursor_position: self.cursor_position,
        }
    }
}

/// How one key press relates the editable part of a text input — value,
/// cursor and scroll window — to its prior state. The remaining fields are
/// owned by the form around it.
pub open spec fn edited_by_key(pre: TextInput, post: TextInput, key: Key) -> bool {
    match key {
        Key::Char(c) => {
            if pre.mode == FormMode::Insert && pre.is_focused {
                &&& post.value@ == inserted_at(pre.value@, pre.cursor_position as int, c)
                &&& match pre.area {
                    Option::Some(area) => {
                        &&& post.scroll_offset == (if post.value@.len() + 3 > area.width
                            as int && pre.scroll_offset < u16::MAX {
                            pre.scroll_offset + 1
                        } else {
                            pre.scroll_offset as int
                        })
                        &&& post.cursor_position == (if pre.cursor_position < usize::MAX {
                            pre.cursor_position + 1
                        } else {
                            pre.cursor_position as int
                        })
                    },
                    Option::None => post.scroll_offset == pre.scroll_offset
                        && post.cursor_position == pre.cursor_position,
                }
            } else {
                post.value@ == pre.value@ && post.scroll_offset == pre.scroll_offset
                    && post.cursor_position == pre.cursor_position
            }
        },
        Key::Backspace => {
            if pre.is_focused {
                &&& post.value@ == (if pre.cursor_position >= pre.value@.len() {
                    popped(pre.value@)
                } else {
                    removed_at(
                        pre.value@,
                        if pre.cursor_position > 0 {
                            pre.cursor_position - 1
                        } else {
                            0int
                        },
                    )
                })
                &&& match pre.area {
                    Option::Some(area) => {
                        &&& post.scroll_offset == (if post.value@.len() + 3 >= area.width as int
                            && pre.scroll_offset > 0 {
                            pre.scroll_offset - 1
                        } else {
                            pre.scroll_offset as int
                        })
                        &&& post.cursor_position == (if pre.cursor_position > 0 {
                            pre.cursor_position - 1
                        } else {
                            0int
                        })
                    },
                    Option::None => post.scroll_offset == pre.scroll_offset
                        && post.cursor_position == pre.cursor_position,
                }
            } else {
                post.value@ == pre.value@ && post.scroll_offset == pre.scroll_offset
                    && post.cursor_position == pre.cursor_position
            }
        },
        Key::Left => {
            &&& post.value@ == pre.value@
            &&& post.scroll_offset == pre.scroll_offset
            &&& post.cursor_position == (if pre.mode == FormMode::Insert && pre.is_focused
                && pre.cursor_position > 0 {
                pre.cursor_position - 1
            } else {
                pre.cursor_position as int
            })
        },
        Key::Right => {
            &&& post.value@ == pre.value@
            &&& post.scroll_offset == pre.scroll_offset
            &&& post.cursor_position == (if pre.mode == FormMode::Insert && pre.is_focused
                && pre.value@.len() > pre.cursor_position {
                pre.cursor_position + 1
            } else {
                pre.cursor_position as int
            })
        },
        Key::Down => {
            &&& post.value@ == pre.value@
            &&& post.scroll_offset == pre.scroll_offset
            &&& post.cursor_position == (if pre.mode == FormMode::Insert && pre.is_focused {
                pre.value@.len() as int
            } else {
                pre.cursor_position as int
            })
        },
        Key::Up => {
            &&& post.value@ == pre.value@
            &&& post.scroll_offset == pre.scroll_offset
            &&& post.cursor_position == (if pre.mode == FormMode::Insert && pre.is_focused {
                0int
            } else {
                pre.cursor_position as int
            })
        },
        _ => post.value@ == pre.value@ && post.scroll_offset == pre.scroll_offset
            && post.cursor_position == pre.cursor_position,
    }
}

/// Every field a key press never touches, kept.
pub open spec fn key_keeps_rest(pre: TextInput, post: TextInput) -> bool {
    &&& post.title == pre.title
    &&& post.mode == pre.mode
    &&& post.is_focused == pre.is_focused
    &&& post.is_password == pre.is_password
    &&& post.area == pre.area
}

impl TextInput {
    pub fn new(title: &str, placeholder: &str, is_password: bool) -> (r: TextInput)
        ensures
            r.title@ == title@,
            r.value@ == placeholder@,
            r.mode == FormMode::Normal,
            !r.is_focused,
            r.is_password == is_password,
            r.area is None,
            r.scroll_offset == 0,
            r.cursor_position == 0,
    {
        TextInput {
            title: title.to_owned(),
            value: placeholder.to_owned(),
            mode: FormMode::Normal,
            is_focused: false,
            is_password,
            area: None,
            scroll_offset: 0,
            cursor_position: 0,
        }
    }

    pub fn get_value(&self) -> (r: InputValue)
        ensures
            r matches InputValue::Text(v) && v@ == self.value@,
    {
        InputValue::Text(self.value.clone())
    }

    /// Edits the value, cursor and scroll window as the key asks; never
    /// answers with a message.
    pub fn handle_key_press(&mut self, key: Key) -> (r: Option<Message>)
        ensures
            r is None,
            edited_by_key(*old(self), *final(self), key),
            key_keeps_rest(*old(self), *final(self)),
    {
        match key {
            Key::Char(c) => {
                if self.mode == FormMode::Insert && self.is_focused {
                    if self.cursor_position >= self.value.as_str().unicode_len() {
                        crate::strings::push_char(&mut self.value, c);
                    } else {
                        let n = self.value.as_str().unicode_len();
                        let mut next = self.value.as_str().substring_char(
                            0,
                            self.cursor_position,
                        ).to_owned();
                        crate::strings::push_char(&mut next, c);
                        next.append(self.value.as_str().substring_char(self.cursor_position, n));
                        proof {
                            assert(next@ =~= inserted_at(
                                self.value@,
                                self.cursor_position as int,
                                c,
                            ));
                        }
                        self.value = next;
                    }
                    match self.area {
                        Option::Some(area) => {
                            let n = self.value.as_str().unicode_len();
                            if n > usize::MAX - 3 || n + 3 > area.width as usize {
                                if self.scroll_offset < u16::MAX {
                                    self.scroll_offset = self.scroll_offset + 1;
                                }
                            }
                            if self.cursor_position < usize::MAX {
                                self.cursor_position = self.cursor_position + 1;
                            }
                        },
                        Option::None => {},
                    }
                }
                None
            },
            Key::Backspace => {
                if self.is_focused {
                    let n = self.value.as_str().unicode_len();
                    if self.cursor_position >= n {
                        if n > 0 {
                            let next = self.value.as_str().substring_char(0, n - 1).to_owned();
                            proof {
                                assert(next@ =~= popped(self.value@));
                            }
                            self.value = next;
                        }
                    } else {
                        let at = if self.cursor_position > 0 {
                            self.cursor_position - 1
                        } else {
                            0
                        };
                        let mut next = self.value.as_str().substring_char(0, at).to_owned();
                        next.append(self.value.as_str().substring_char(at + 1, n));
                        proof {
                            assert(next@ =~= removed_at(self.value@, at as int));
                        }
                        self.value = next;
                    }
                    match self.area {
                        Option::Some(area) => {
                            let n2 = self.value.as_str().unicode_len();
                            if n2 > usize::MAX - 3 || n2 + 3 >= area.width as usize {
                                if self.scroll_offset > 0 {
                                    self.scroll_offset = self.scroll_offset - 1;
                                }
                            }
                            if self.cursor_position > 0 {
                                self.cursor_position = self.cursor_position - 1;
                            }
                        },
                        Option::None => {},
                    }
                }
                None
            },
            Key::Left => {
                if self.mode == FormMode::Insert && self.is_focused && self.cursor_position > 0 {
                    self.cursor_position = self.cursor_position - 1;
                }
                None
            },
            Key::Right => {
                if self.mode == FormMode::Insert && self.is_focused
                    && self.value.as_str().unicode_len() > self.cursor_position {
                    self.cursor_position = self.cursor_position + 1;
                }
                None
            },
            Key::Down => {
                if self.mode == FormMode::Insert && self.is_focused {
                    self.cursor_position = self.value.as_str().unicode_len();
                }
                None
            },
            Key::Up => {
                if self.mode == FormMode::Insert && self.is_focused {
                    self.cursor_position = 0;
                }
                None
            },
            _ => None,
        }
    }

    /// A frame update leaves a text input alone and never answers with a
    /// message.
    pub fn tick(&self) -> (r: Option<Message>)
        ensures
            r is None,
    {
        None
    }
}

} // verus!
