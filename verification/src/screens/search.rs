//! The search screen: a query field in insert mode, and the interleaved
//! results once the query is submitted.
use crate::app::App;
use crate::components::form::FormMode;
use crate::components::list::{window_kept, List};
use crate::components::text_input::{edited_by_key, TextInput};
use crate::key::Key;
use crate::message::Message;
use crate::spotify::search_results::{top_results_of, SearchResults};
use crate::spotify::{clone_name_ids, name_id_vecs_equal};
use crate::strings::space_escaped;
use vstd::prelude::*;

verus! {

#[derive(Clone, Debug)]
pub struct SearchScreen {
    pub search_bar: TextInput,
    pub refresh_results: bool,
    pub search_results: SearchResults,
    pub result_list: List,
}

impl Default for SearchScreen {
    fn default() -> (r: SearchScreen)
        ensures
            r.search_bar.value@.len() == 0,
            r.search_bar.is_focused,
            r.search_bar.mode == FormMode::Insert,
            !r.refresh_results,
            r.search_results.query@.len() == 0,
            r.result_list.items@.len() == 0,
    {
        proof {
            reveal_strlit("");
        }
        let mut search_bar = TextInput::new("Search", "", false);
        search_bar.is_focused = true;
        search_bar.mode = FormMode::Insert;
        SearchScreen {
            search_bar,
            refresh_results: false,
            search_results: SearchResults::default(),
            result_list: List::default(),
        }
    }
}

/// What one frame update does to the screen and which message it answers
/// with, mirrored step for step by `tick`.
pub open spec fn search_tick_rel(pre: SearchScreen, post: SearchScreen, r: Option<Message>) -> bool {
    &&& post.search_bar == pre.search_bar
    &&& post.search_results == pre.search_results
    &&& if pre.refresh_results {
        &&& !post.refresh_results
        &&& post.result_list == pre.result_list
        &&& r == Some(Message::RefreshSearchResults)
    } else {
        let top = top_results_of(
            pre.search_results.artists.deep_view(),
            pre.search_results.albums.deep_view(),
            pre.search_results.songs.deep_view(),
            pre.search_results.playlists.deep_view(),
        );
        let mirrored = pre.search_bar.mode == FormMode::Normal && top
            != pre.result_list.items.deep_view();
        let emptied = pre.search_bar.mode == FormMode::Insert && pre.result_list.items@.len() > 0;
        &&& post.refresh_results == pre.refresh_results
        &&& r is None
        &&& if mirrored {
            &&& window_kept(pre.result_list, post.result_list)
            &&& post.result_list.items.deep_view() == top
            &&& post.result_list.items_changed
            &&& post.result_list.current_item_id == pre.result_list.current_item_id
        } else if emptied {
            &&& post.result_list == (List {
                items: post.result_list.items,
                items_changed: true,
                active_index: 0,
                ..pre.result_list
            })
            &&& post.result_list.items@.len() == 0
        } else {
            post.result_list == pre.result_list
        }
    }
}

/// What one key press does to the screen, and which
/// message it answers with, mirrored by `handle_key_press`.
pub open spec fn search_key_rel(pre: SearchScreen, post: SearchScreen, key: Key, r: Option<
    Message,
>) -> bool {
    &&& r is None
    &&& post.search_results.artists == pre.search_results.artists
    &&& post.search_results.albums == pre.search_results.albums
    &&& post.search_results.songs == pre.search_results.songs
    &&& post.search_results.playlists == pre.search_results.playlists
    &&& // the query field takes the key first
            edited_by_key(pre.search_bar, post.search_bar, key)
    &&& post.search_bar.title == pre.search_bar.title
    &&& post.search_bar.is_focused == pre.search_bar.is_focused
    &&& post.search_bar.is_password == pre.search_bar.is_password
    &&& post.search_bar.area == pre.search_bar.area
    &&& post.search_bar.mode == (match key {
                Key::Enter => FormMode::Normal,
                Key::Char(c) => {
                    if c == '/' && pre.search_bar.mode == FormMode::Normal {
                        FormMode::Insert
                    } else {
                        pre.search_bar.mode
                    }
                },
                _ => pre.search_bar.mode,
    })
    &&& // then the result list
            post.result_list == (match key {
                Key::Char(c) => {
                    if c == 'j' && pre.result_list.items@.len() > 0 {
                        pre.result_list.spec_on_key_j()
                    } else if c == 'k' && pre.result_list.items@.len() > 0 {
                        pre.result_list.spec_on_key_k()
                    } else {
                        pre.result_list
                    }
                },
                _ => pre.result_list,
    })
    &&& // enter submits the query
            post.refresh_results == (if key == Key::Enter {
                true
            } else {
                pre.refresh_results
            })
    &&& post.search_results.query@ == (if key == Key::Enter {
                space_escaped(pre.search_bar.value@)
            } else {
                pre.search_results.query@
            })
}

impl SearchScreen {
    /// Submits the typed query: the stored query is the typed text with its
    /// spaces escaped, and the next frame update will ask for a search
    /// refresh.
    pub fn set_query(&mut self)
        ensures
            final(self).refresh_results,
            final(self).search_results.query@ == space_escaped(old(self).search_bar.value@),
            final(self).search_results.artists == old(self).search_results.artists,
            final(self).search_results.albums == old(self).search_results.albums,
            final(self).search_results.songs == old(self).search_results.songs,
            final(self).search_results.playlists == old(self).search_results.playlists,
            final(self).search_bar == old(self).search_bar,
            final(self).result_list == old(self).result_list,
    {
        self.refresh_results = true;
        self.search_results.set_query(self.search_bar.value.clone());
    }

    /// A frame update asks for a search refresh once after each submitted
    /// query; otherwise it mirrors the top results into the list while the
    /// query field rests, and empties the list while the user is typing.
    pub fn tick(&mut self, app: &mut App) -> (r: Option<Message>)
        ensures
            *final(app) == *old(app),
            search_tick_rel(*old(self), *final(self), r),
    {
        if self.refresh_results {
            self.refresh_results = false;
            return Some(Message::RefreshSearchResults);
        }
        let top_results = self.search_results.get_top_results();
        if self.search_bar.mode == FormMode::Normal && !name_id_vecs_equal(
            &top_results,
            &self.result_list.items,
        ) {
            self.result_list.set_items(top_results);
        } else if self.search_bar.mode == FormMode::Insert && self.result_list.items.len() > 0 {
            self.result_list.set_items(Vec::<(String, String)>::new());
            self.result_list.active_index = 0;
        }
        None
    }

    /// Typing goes to the query field and list movement to the list; enter
    /// submits the query and leaves insert mode, and the slash re-enters
    /// it.
    pub fn handle_key_press(&mut self, key: Key) -> (r: Option<Message>)
        ensures
            search_key_rel(*old(self), *final(self), key, r),
    {
        let bar_reply = self.search_bar.handle_key_press(key);
        if let Option::Some(message) = bar_reply {
            return Some(message);
        }
        let list_reply = self.result_list.handle_key_press(key);
        if let Option::Some(message) = list_reply {
            return Some(message);
        }
        match key {
            Key::Enter => {
                self.search_bar.mode = FormMode::Normal;
                self.set_query();
            },
            Key::Char(c) => {
                if c == '/' {
                    if self.search_bar.mode == FormMode::Normal {
                        self.search_bar.mode = FormMode::Insert;
                    }
                }
            },
            _ => {},
        }
        None
    }
}

} // verus!
