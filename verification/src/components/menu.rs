//! A paged menu of labelled entries, six to a page, moved through with the
//! j and k keys.
use crate::key::Key;
use crate::message::Message;
use crate::rect::Rect;
use vstd::prelude::*;

verus! {

#[derive(Clone, Debug)]
pub struct Menu {
    pub show_menu: bool,
    pub current_menu_index: usize,
    pub menu_items: Vec<String>,
    pub area: Option<Rect>,
    pub current_page: usize,
}

impl Default for Menu {
    fn default() -> (r: Menu)
        ensures
            r.show_menu,
            r.current_menu_index == 0,
            r.menu_items@.len() == 0,
            r.area is None,
            r.current_page == 1,
    {
        Menu {
            show_menu: true,
            current_menu_index: 0,
            menu_items: Vec::<String>::new(),
            area: None,
            current_page: 1,
        }
    }
}

impl Menu {
    pub fn new(menu_items: Vec<String>) -> (r: Menu)
        ensures
            r.show_menu,
            r.current_menu_index == 0,
            r.menu_items == menu_items,
            r.area is None,
            r.current_page == 1,
    {
        Menu { show_menu: true, current_menu_index: 0, menu_items, area: None, current_page: 1 }
    }

    /// The label under the cursor; the empty string when the cursor is
    /// outside the list.
    pub fn get_current_item(&self) -> (r: String)
        ensures
            self.current_menu_index < self.menu_items@.len() ==> r@
                == self.menu_items@[self.current_menu_index as int]@,
            self.current_menu_index >= self.menu_items@.len() ==> r@ == Seq::<char>::empty(),
    {
        if self.current_menu_index < self.menu_items.len() {
            self.menu_items[self.current_menu_index].clone()
        } else {
            String::new()
        }
    }

    /// How many pages the items fill: a final partial page counts.
    pub open spec fn spec_total_pages(self) -> int {
        self.menu_items@.len() / 6 + if self.menu_items@.len() % 6 != 0 {
            1int
        } else {
            0int
        }
    }

    pub fn get_total_pages(&self) -> (r: usize)
        ensures
            r == self.spec_total_pages(),
    {
        let mut total_pages = self.menu_items.len() / 6;
        if self.menu_items.len() % 6 != 0 {
            total_pages = total_pages + 1;
        }
        total_pages
    }

    /// The index of the first entry of the current page, held inside the
    /// machine range.
    pub open spec fn spec_start_index(self) -> int {
        if self.current_page <= 1 {
            0int
        } else if self.current_page - 1 <= usize::MAX as int / 6 {
            (self.current_page - 1) * 6
        } else {
            usize::MAX as int
        }
    }

    pub fn get_start_index(&self) -> (r: usize)
        ensures
            r == self.spec_start_index(),
    {
        if self.current_page <= 1 {
            return 0;
        }
        if self.current_page - 1 <= usize::MAX / 6 {
            (self.current_page - 1) * 6
        } else {
            usize::MAX
        }
    }

    /// The index one past the last entry of the current page: six past the
    /// start, clipped to the number of items.
    pub open spec fn spec_end_index(self) -> int {
        let unclipped = if self.spec_start_index() + 6 <= usize::MAX as int {
            self.spec_start_index() + 6
        } else {
            usize::MAX as int
        };
        if unclipped > self.menu_items@.len() {
            self.menu_items@.len() as int
        } else {
            unclipped
        }
    }

    pub fn get_end_index(&self) -> (r: usize)
        ensures
            r == self.spec_end_index(),
    {
        let start = self.get_start_index();
        let mut end_index = if start <= usize::MAX - 6 {
            start + 6
        } else {
            usize::MAX
        };
        if end_index > self.menu_items.len() {
            end_index = self.menu_items.len();
        }
        end_index
    }

    /// The menu after a j key: the cursor moves down one entry, wrapping to
    /// the top; the page follows when the cursor leaves the page's last
    /// entry, itself wrapping to the first page.
    pub open spec fn spec_on_key_j(self) -> Menu {
        let page = if self.current_menu_index + 1 >= self.spec_end_index() {
            if self.current_page < self.spec_total_pages() {
                self.current_page + 1
            } else {
                1int
            }
        } else {
            self.current_page as int
        };
        let index = if self.current_menu_index + 1 < self.menu_items@.len() {
            self.current_menu_index + 1
        } else {
            0int
        };
        Menu { current_menu_index: index as usize, current_page: page as usize, ..self }
    }

    /// The menu after a k key: the cursor moves up one entry, wrapping to
    /// the bottom; the page follows when the cursor leaves the page's first
    /// entry, itself wrapping to the last page.
    pub open spec fn spec_on_key_k(self) -> Menu {
        let page = if self.current_menu_index == self.spec_start_index() {
            if self.current_page == 1 {
                self.spec_total_pages()
            } else if self.current_page > 0 {
                self.current_page - 1
            } else {
                0int
            }
        } else {
            self.current_page as int
        };
        let index = if self.current_menu_index > 0 {
            self.current_menu_index - 1
        } else {
            self.menu_items@.len() - 1
        };
        Menu { current_menu_index: index as usize, current_page: page as usize, ..self }
    }

    /// Moves the cursor on j and k; every other key, and any key on an
    /// empty menu, leaves the menu alone. Never answers with a message.
    pub fn handle_key_press(&mut self, key: Key) -> (r: Option<Message>)
        ensures
            r is None,
            match key {
                Key::Char(c) => {
                    if c == 'j' && old(self).menu_items@.len() > 0 {
                        *final(self) == old(self).spec_on_key_j()
                    } else if c == 'k' && old(self).menu_items@.len() > 0 {
                        *final(self) == old(self).spec_on_key_k()
                    } else {
                        *final(self) == *old(self)
                    }
                },
                _ => *final(self) == *old(self),
            },
    {
        match key {
            Key::Char(c) => {
                if c == 'j' && self.menu_items.len() > 0 {
                    let end = self.get_end_index();
                    if end == 0 || self.current_menu_index >= end - 1 {
                        if self.current_page < self.get_total_pages() {
                            self.current_page = self.current_page + 1;
                        } else {
                            self.current_page = 1;
                        }
                    }
                    if self.current_menu_index < self.menu_items.len() - 1 {
                        self.current_menu_index = self.current_menu_index + 1;
                    } else {
                        self.current_menu_index = 0;
                    }
                } else if c == 'k' && self.menu_items.len() > 0 {
                    if self.current_menu_index == self.get_start_index() {
                        if self.current_page == 1 {
                            self.current_page = self.get_total_pages();
                        } else if self.current_page > 0 {
                            self.current_page = self.current_page - 1;
                        } else {
                            self.current_page = 0;
                        }
                    }
                    if self.current_menu_index > 0 {
                        self.current_menu_index = self.current_menu_index - 1;
                    } else {
                        self.current_menu_index = self.menu_items.len() - 1;
                    }
                }
                None
            },
            _ => None,
        }
    }

    /// A frame update never moves a menu and never answers with a message.
    pub fn tick(&self) -> (r: Option<Message>)
        ensures
            r is None,
    {
        None
    }
}

} // verus!
