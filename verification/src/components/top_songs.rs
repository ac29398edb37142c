//! The top-songs panel: the playing artist's best tracks beside the details
//! of the selected one.
use crate::components::list::{active_id_view, List};
use crate::components::song_info_window::SongInfoWindow;
use crate::key::Key;
use crate::message::Message;
use crate::rect::Rect;
use crate::spotify::artist::Artist;
use crate::spotify::now_playing::NowPlaying;
use crate::spotify::song::Song;
use crate::spotify::{clone_name_ids, name_id_vecs_equal};
use vstd::prelude::*;

verus! {

#[derive(Clone, Debug)]
pub struct TopSongs {
    pub artist: Artist,
    pub now_playing: NowPlaying,
    pub song_list: List,
    pub info_window: SongInfoWindow,
    pub area: Rect,
}

impl Default for TopSongs {
    fn default() -> (r: TopSongs)
        ensures
            r.artist.is_empty_spec(),
            r.artist.id@.len() == 0,
            r.now_playing.is_empty_spec(),
            r.song_list.items@.len() == 0,
            r.info_window.song.is_empty_spec(),
    {
        TopSongs {
            artist: Artist::default(),
            now_playing: NowPlaying::default(),
            song_list: List::default(),
            info_window: SongInfoWindow::default(),
            area: Rect::zero(),
        }
    }
}

/// What one frame update does to the panel and which message it answers
/// with, mirrored step for step by `tick`.
pub open spec fn top_songs_tick_rel(pre: TopSongs, post: TopSongs, r: Option<Message>) -> bool {
    &&& post.area == pre.area
    &&& post.now_playing == pre.now_playing
    &&& if pre.now_playing.artist_ids@.len() > 0 && pre.now_playing.artist_ids@[0]@
        != pre.artist.id@ {
        // a new artist is playing: adopt its id and ask for its data
        &&& post.artist == (Artist { id: pre.now_playing.artist_ids@[0], ..pre.artist })
        &&& post.song_list == pre.song_list
        &&& post.info_window == pre.info_window
        &&& r == Some(Message::RefreshArtist)
    } else {
        let marked = if pre.now_playing.artist_ids@.len() > 0 && !(
        pre.song_list.current_item_id matches Some(cur) && cur@ == pre.now_playing.song_id@) {
            List { current_item_id: Some(pre.now_playing.song_id), ..pre.song_list }
        } else {
            pre.song_list
        };
        &&& post.artist == pre.artist
        &&& if active_id_view(marked) != pre.info_window.song.id@ {
            // the cursor moved to another song: show it and ask for its data
            &&& post.song_list == marked
            &&& post.info_window == (SongInfoWindow {
                song: Song { id: post.info_window.song.id, ..pre.info_window.song },
                ..pre.info_window
            })
            &&& post.info_window.song.id@ == active_id_view(marked)
            &&& r == Some(Message::RefreshSong)
        } else {
            &&& post.info_window == pre.info_window
            &&& if pre.artist.top_songs.deep_view() != marked.items.deep_view() {
                &&& post.song_list.items@ == pre.artist.top_songs@
                &&& post.song_list == (List {
                    items: post.song_list.items,
                    items_changed: true,
                    ..marked
                })
            } else {
                post.song_list == marked
            }
            &&& r == Some(Message::RefreshNowPlaying)
        }
    }
}

/// What one key press does to the panel and which message it answers with,
/// mirrored by `handle_key_press`.
pub open spec fn top_songs_key_rel(pre: TopSongs, post: TopSongs, key: Key, r: Option<
    Message,
>) -> bool {
    &&& post.artist == pre.artist
    &&& post.now_playing == pre.now_playing
    &&& post.info_window == pre.info_window
    &&& post.area == pre.area
    &&& match key {
        Key::Char(c) => {
            &&& r is None
            &&& if c == 'j' && pre.song_list.items@.len() > 0 {
                post.song_list == pre.song_list.spec_on_key_j()
            } else if c == 'k' && pre.song_list.items@.len() > 0 {
                post.song_list == pre.song_list.spec_on_key_k()
            } else {
                post.song_list == pre.song_list
            }
        },
        Key::Enter => {
            &&& post.song_list == pre.song_list
            &&& r matches Some(m) && m matches Message::PlaySongs { offset, songs } && offset
                == pre.song_list.active_index && songs@ == pre.song_list.items@
        },
        _ => r is None && post.song_list == pre.song_list,
    }
}

impl TopSongs {
    /// A frame update chases the playing artist and the cursor: it adopts a
    /// newly playing artist and asks for its data, else shows the track the
    /// cursor moved to and asks for its data, else mirrors the artist's top
    /// songs into the list and asks to refresh the playing state.
    pub fn tick(&mut self) -> (r: Option<Message>)
        ensures
            top_songs_tick_rel(*old(self), *final(self), r),
    {
        if self.now_playing.artist_ids.len() > 0 {
            if !self.now_playing.artist_ids[0].eq(&self.artist.id) {
                self.artist.id = self.now_playing.artist_ids[0].clone();
                return Some(Message::RefreshArtist);
            }
            let marked = match &self.song_list.current_item_id {
                Option::Some(cur) => cur.eq(&self.now_playing.song_id),
                Option::None => false,
            };
            if !marked {
                self.song_list.current_item_id = Some(self.now_playing.song_id.clone());
            }
        }
        let active = self.song_list.get_active_item();
        if !active.1.eq(&self.info_window.song.id) {
            self.info_window.song.id = active.1;
            return Some(Message::RefreshSong);
        }
        if !name_id_vecs_equal(&self.artist.top_songs, &self.song_list.items) {
            let items = clone_name_ids(&self.artist.top_songs);
            self.song_list.set_items(items);
        }
        Some(Message::RefreshNowPlaying)
    }

    /// Moves the list cursor on j and k, and answers enter with a request
    /// to play the listed songs from the selected one on.
    pub fn handle_key_press(&mut self, key: Key) -> (r: Option<Message>)
        ensures
            top_songs_key_rel(*old(self), *final(self), key, r),
    {
        let list_reply = self.song_list.handle_key_press(key);
        if let Option::Some(message) = list_reply {
            return Some(message);
        }
        match key {
            Key::Enter => Some(
                Message::PlaySongs {
                    offset: self.song_list.active_index,
                    songs: clone_name_ids(&self.song_list.items),
                },
            ),
            _ => None,
        }
    }

    pub fn get_area(&self) -> (r: Rect)
        ensures
            r == self.area,
    {
        self.area
    }

    pub fn set_area(&mut self, area: Rect)
        ensures
            *final(self) == (TopSongs { area, ..*old(self) }),
    {
        self.area = area;
    }
}

} // verus!
