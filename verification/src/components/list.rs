//! A scrolling list of name-and-id entries with a sliding window, moved
//! through with the j and k keys.
use crate::key::Key;
use crate::message::Message;
use crate::rect::Rect;
use crate::spotify::NameAndId;
use vstd::prelude::*;

verus! {

/// The next value up, held inside the machine range.
pub open spec fn inc_clipped(x: int) -> int {
    if x < usize::MAX as int {
        x + 1
    } else {
        x
    }
}

/// The id of the entry under a list's cursor, or nothing's characters when
/// the cursor is outside the list.
pub open spec fn active_id_view(l: List) -> Seq<char> {
    if l.active_index < l.items@.len() {
        l.items@[l.active_index as int].1@
    } else {
        Seq::<char>::empty()
    }
}

/// The window and cursor fields untouched by item mirroring: everything but
/// the items, the change flag and the marked id.
pub open spec fn window_kept(pre: List, post: List) -> bool {
    &&& post.active_index == pre.active_index
    &&& post.is_active == pre.is_active
    &&& post.area == pre.area
    &&& post.max_items == pre.max_items
    &&& post.start_index == pre.start_index
    &&& post.end_index == pre.end_index
}

#[derive(Clone, Debug)]
pub struct List {
    pub items: Vec<NameAndId>,
    pub current_item_id: Option<String>,
    pub active_index: usize,
    pub is_active: bool,
    pub area: Rect,
    pub max_items: u16,
    pub start_index: usize,
    pub end_index: usize,
    pub items_changed: bool,
}

impl Default for List {
    fn default() -> (r: List)
        ensures
            r.items@.len() == 0,
            r.current_item_id is None,
            r.active_index == 0,
            r.is_active,
            r.area == (Rect { x: 0, y: 0, width: 0, height: 0 }),
            r.max_items == 0,
            r.start_index == 0,
            r.end_index == 0,
            !r.items_changed,
    {
        List {
            items: Vec::<NameAndId>::new(),
            current_item_id: None,
            active_index: 0,
            is_active: true,
            area: Rect::zero(),
            max_items: 0,
            start_index: 0,
            end_index: 0,
            items_changed: false,
        }
    }
}

impl List {
    pub fn new(items: Vec<NameAndId>, current_item_id: Option<String>) -> (r: List)
        ensures
            r.items == items,
            r.current_item_id == current_item_id,
            r.active_index == 0,
            r.is_active,
            r.max_items == 0,
            r.start_index == 0,
            r.end_index == 0,
            r.items_changed,
    {
        List {
            items,
            current_item_id,
            active_index: 0,
            is_active: true,
            area: Rect::zero(),
            max_items: 0,
            start_index: 0,
            end_index: 0,
            items_changed: true,
        }
    }

    /// Replaces the entries; the window is laid out afresh when an area is
    /// next assigned.
    pub fn set_items(&mut self, items: Vec<NameAndId>)
        ensures
            *final(self) == (List { items, items_changed: true, ..*old(self) }),
    {
        self.items = items;
        self.items_changed = true;
    }

    /// The entry under the cursor; empty name and id when the cursor is
    /// outside the list.
    pub fn get_active_item(&self) -> (r: NameAndId)
        ensures
            self.active_index < self.items@.len() ==> r == self.items@[self.active_index as int],
            self.active_index >= self.items@.len() ==> r.0@ == Seq::<char>::empty() && r.1@
                == Seq::<char>::empty(),
    {
        if self.active_index < self.items.len() {
            let item = &self.items[self.active_index];
            let pair = (item.0.clone(), item.1.clone());
            proof {
                assert(pair == self.items@[self.active_index as int]);
            }
            pair
        } else {
            (String::new(), String::new())
        }
    }

    /// The list after a j key: the cursor moves down one entry, the window
    /// sliding with it, and wraps to the top with the window reset.
    pub open spec fn spec_on_key_j(self) -> List {
        let (start1, end1) = if self.active_index + 1 >= self.end_index {
            (inc_clipped(self.start_index as int), inc_clipped(self.end_index as int))
        } else {
            (self.start_index as int, self.end_index as int)
        };
        if self.active_index + 1 < self.items@.len() {
            List {
                active_index: (self.active_index + 1) as usize,
                start_index: start1 as usize,
                end_index: end1 as usize,
                ..self
            }
        } else {
            List {
                active_index: 0,
                start_index: 0,
                end_index: self.max_items as usize,
                ..self
            }
        }
    }

    /// The list after a k key: the cursor moves up one entry, the window
    /// sliding with it, and wraps to the bottom with the window moved to the
    /// end.
    pub open spec fn spec_on_key_k(self) -> List {
        let (start1, end1) = if self.active_index <= self.start_index && self.active_index != 0 {
            (
                self.start_index - 1,
                if self.end_index > 0 {
                    self.end_index - 1
                } else {
                    0int
                },
            )
        } else {
            (self.start_index as int, self.end_index as int)
        };
        if self.active_index == 0 {
            List {
                active_index: (self.items@.len() - 1) as usize,
                start_index: if self.items@.len() < self.max_items as int {
                    0 as usize
                } else {
                    (self.items@.len() - self.max_items as int) as usize
                },
                end_index: self.items@.len() as usize,
                ..self
            }
        } else {
            List {
                active_index: (self.active_index - 1) as usize,
                start_index: start1 as usize,
                end_index: end1 as usize,
                ..self
            }
        }
    }

    /// Moves the cursor on j and k; every other key, and any key on an
    /// empty list, leaves the list alone. Never answers with a message.
    pub fn handle_key_press(&mut self, key: Key) -> (r: Option<Message>)
        ensures
            r is None,
            match key {
                Key::Char(c) => {
                    if c == 'j' && old(self).items@.len() > 0 {
                        *final(self) == old(self).spec_on_key_j()
                    } else if c == 'k' && old(self).items@.len() > 0 {
                        *final(self) == old(self).spec_on_key_k()
                    } else {
                        *final(self) == *old(self)
                    }
                },
                _ => *final(self) == *old(self),
            },
    {
        match key {
            Key::Char(c) => {
                if c == 'j' && self.items.len() > 0 {
                    if self.end_index == 0 || self.active_index >= self.end_index - 1 {
                        if self.start_index < usize::MAX {
                            self.start_index = self.start_index + 1;
                        }
                        if self.end_index < usize::MAX {
                            self.end_index = self.end_index + 1;
                        }
                    }
                    if self.active_index < self.items.len() - 1 {
                        self.active_index = self.active_index + 1;
                    } else {
                        self.active_index = 0;
                        self.start_index = 0;
                        self.end_index = self.max_items as usize;
                    }
                } else if c == 'k' && self.items.len() > 0 {
                    if self.active_index <= self.start_index && self.active_index != 0 {
                        self.start_index = self.start_index - 1;
                        if self.end_index > 0 {
                            self.end_index = self.end_index - 1;
                        }
                    }
                    if self.active_index == 0 {
                        self.active_index = self.items.len() - 1;
                        self.end_index = self.items.len();
                        if self.items.len() < self.max_items as usize {
                            self.start_index = 0;
                        } else {
                            self.start_index = self.items.len() - self.max_items as usize;
                        }
                    } else {
                        self.active_index = self.active_index - 1;
                    }
                }
                None
            },
            _ => None,
        }
    }

    /// Adopts a screen region: the window height follows it, and a pending
    /// item change lays the window out afresh.
    pub fn set_area(&mut self, area: Rect)
        ensures
            final(self).area == area,
            final(self).max_items == (if area.height >= 2 {
                (area.height - 2) as u16
            } else {
                0u16
            }),
            old(self).items_changed ==> final(self).end_index == final(self).max_items
                && !final(self).items_changed,
            !old(self).items_changed ==> final(self).end_index == old(self).end_index && !final(self).items_changed,
            final(self).items == old(self).items,
            final(self).current_item_id == old(self).current_item_id,
            final(self).active_index == old(self).active_index,
            final(self).is_active == old(self).is_active,
            final(self).start_index == old(self).start_index,
    {
        let max_items: u16 = if area.height >= 2 {
            area.height - 2
        } else {
            0
        };
        self.area = area;
        self.max_items = max_items;
        if self.items_changed {
            self.end_index = max_items as usize;
            self.items_changed = false;
        }
    }

    pub fn get_area(&self) -> (r: Rect)
        ensures
            r == self.area,
    {
        self.area
    }

    /// A frame update never moves a list and never answers with a message.
    pub fn tick(&self) -> (r: Option<Message>)
        ensures
            r is None,
    {
        None
    }
}

} // verus!
