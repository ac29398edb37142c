//! The artist-albums panel: the playing artist's albums beside the selected
//! album's tracks, with the details of the selected track one step deeper.
use crate::components::list::{active_id_view, window_kept, List};
use crate::components::song_info_window::SongInfoWindow;
use crate::key::Key;
use crate::message::Message;
use crate::rect::Rect;
use crate::spotify::album::Album;
use crate::spotify::artist::Artist;
use crate::spotify::now_playing::NowPlaying;
use crate::spotify::song::Song;
use crate::spotify::{clone_name_ids, name_id_vecs_equal};
use vstd::prelude::*;

verus! {

/// Which of the panel's two lists holds the cursor.
#[derive(Clone, Copy, Debug, PartialEq, Eq, Structural)]
pub enum AlbumsListFocus {
    Albums,
    Songs,
}

#[derive(Clone, Debug)]
pub struct ArtistAlbums {
    pub album: Album,
    pub artist: Artist,
    pub now_playing: NowPlaying,
    pub album_list: List,
    pub song_list: List,
    pub active_list_type: AlbumsListFocus,
    pub info_window: SongInfoWindow,
    pub area: Rect,
}

impl Default for ArtistAlbums {
    fn default() -> (r: ArtistAlbums)
        ensures
            r.album.is_empty_spec(),
            r.album.id@.len() == 0,
            r.artist.is_empty_spec(),
            r.artist.id@.len() == 0,
            r.now_playing.is_empty_spec(),
            r.album_list.items@.len() == 0,
            r.song_list.items@.len() == 0,
            r.active_list_type == AlbumsListFocus::Albums,
            !r.song_list.is_active,
            r.album_list.is_active,
    {
        let mut song_list = List::default();
        song_list.is_active = false;
        ArtistAlbums {
            album: Album::default(),
            artist: Artist::default(),
            now_playing: NowPlaying::default(),
            album_list: List::default(),
            song_list,
            active_list_type: AlbumsListFocus::Albums,
            info_window: SongInfoWindow::default(),
            area: Rect::zero(),
        }
    }
}

/// How one frame update mirrors entity state into the two lists and which
/// message it answers with, mirrored step for step by `tick`.
pub open spec fn artist_albums_tick_rel(pre: ArtistAlbums, post: ArtistAlbums, r: Option<
    Message,
>) -> bool {
    &&& post.area == pre.area
    &&& post.now_playing == pre.now_playing
    &&& post.active_list_type == pre.active_list_type
    &&& if !pre.now_playing.is_empty_spec() && pre.now_playing.artist_ids@[0]@ != pre.artist.id@ {
        // a new artist is playing: adopt its id and ask for its data
        &&& post.artist == (Artist { id: pre.now_playing.artist_ids@[0], ..pre.artist })
        &&& post.album == pre.album
        &&& post.album_list == pre.album_list
        &&& post.song_list == pre.song_list
        &&& post.info_window == pre.info_window
        &&& r == Some(Message::RefreshArtist)
    } else if active_id_view(pre.album_list) != pre.album.id@ {
        // the cursor moved to another album: adopt its id and ask for it
        &&& post.artist == pre.artist
        &&& post.album == (Album { id: post.album.id, ..pre.album })
        &&& post.album.id@ == active_id_view(pre.album_list)
        &&& post.album_list == pre.album_list
        &&& post.song_list == pre.song_list
        &&& post.info_window == pre.info_window
        &&& r == Some(Message::RefreshAlbum)
    } else {
        &&& post.artist == pre.artist
        &&& post.album == pre.album
        // the album list mirrors the artist's albums and marks the playing one
        &&& window_kept(pre.album_list, post.album_list)
        &&& post.album_list.items@ == (if pre.artist.albums.deep_view()
            != pre.album_list.items.deep_view() {
            pre.artist.albums@
        } else {
            pre.album_list.items@
        })
        &&& post.album_list.items_changed == (pre.artist.albums.deep_view()
            != pre.album_list.items.deep_view() || pre.album_list.items_changed)
        &&& post.album_list.current_item_id == (if !(pre.album_list.current_item_id matches Some(c)
            && c@ == pre.now_playing.album_id@) {
            Some(pre.now_playing.album_id)
        } else {
            pre.album_list.current_item_id
        })
        // the song list mirrors the album's tracks and marks the playing one
        &&& window_kept(pre.song_list, post.song_list)
        &&& post.song_list.items@ == (if pre.album.songs.deep_view()
            != pre.song_list.items.deep_view() {
            pre.album.songs@
        } else {
            pre.song_list.items@
        })
        &&& post.song_list.items_changed == (pre.album.songs.deep_view()
            != pre.song_list.items.deep_view() || pre.song_list.items_changed)
        &&& post.song_list.current_item_id == (if !(pre.song_list.current_item_id matches Some(c)
            && c@ == pre.now_playing.song_id@) {
            Some(pre.now_playing.song_id)
        } else {
            pre.song_list.current_item_id
        })
        // then the info window follows the song cursor
        &&& if active_id_view(post.song_list) != pre.info_window.song.id@ {
            &&& post.info_window == (SongInfoWindow {
                song: Song { id: post.info_window.song.id, ..pre.info_window.song },
                ..pre.info_window
            })
            &&& post.info_window.song.id@ == active_id_view(post.song_list)
            &&& r == Some(Message::RefreshSong)
        } else {
            &&& post.info_window == pre.info_window
            &&& r == Some(Message::RefreshNowPlaying)
        }
    }
}

/// What one key press does to the panel and which message it answers with,
/// mirrored by `handle_key_press`.
pub open spec fn artist_albums_key_rel(pre: ArtistAlbums, post: ArtistAlbums, key: Key, r: Option<
    Message,
>) -> bool {
    &&& post.album == pre.album
    &&& post.artist == pre.artist
    &&& post.now_playing == pre.now_playing
    &&& post.info_window == pre.info_window
    &&& post.area == pre.area
    &&& ({
                let handled = if pre.active_list_type == AlbumsListFocus::Albums {
                    ArtistAlbums {
                        album_list: match key {
                            Key::Char(c) => {
                                if c == 'j' && pre.album_list.items@.len() > 0 {
                                    pre.album_list.spec_on_key_j()
                                } else if c == 'k' && pre.album_list.items@.len() > 0 {
                                    pre.album_list.spec_on_key_k()
                                } else {
                                    pre.album_list
                                }
                            },
                            _ => pre.album_list,
                        },
                        ..pre
                    }
                } else {
                    ArtistAlbums {
                        song_list: match key {
                            Key::Char(c) => {
                                if c == 'j' && pre.song_list.items@.len() > 0 {
                                    pre.song_list.spec_on_key_j()
                                } else if c == 'k' && pre.song_list.items@.len() > 0 {
                                    pre.song_list.spec_on_key_k()
                                } else {
                                    pre.song_list
                                }
                            },
                            _ => pre.song_list,
                        },
                        ..pre
                    }
                };
                match key {
                    Key::Char(c) => {
                        if c == 'l' && handled.active_list_type == AlbumsListFocus::Albums {
                            &&& r is None
                            &&& post.active_list_type == AlbumsListFocus::Songs
                            &&& post.album_list == (List {
                                is_active: false,
                                ..handled.album_list
                            })
                            &&& post.song_list == (List {
                                is_active: true,
                                ..handled.song_list
                            })
                        } else if c == 'h' && handled.active_list_type == AlbumsListFocus::Songs {
                            &&& r is None
                            &&& post.active_list_type == AlbumsListFocus::Albums
                            &&& post.album_list == (List {
                                is_active: true,
                                ..handled.album_list
                            })
                            &&& post.song_list == (List {
                                is_active: false,
                                ..handled.song_list
                            })
                        } else {
                            &&& r is None
                            &&& post.active_list_type == handled.active_list_type
                            &&& post.album_list == handled.album_list
                            &&& post.song_list == handled.song_list
                        }
                    },
                    Key::Enter => {
                        if handled.active_list_type == AlbumsListFocus::Albums {
                            &&& r is None
                            &&& post.active_list_type == AlbumsListFocus::Songs
                            &&& post.album_list == (List {
                                is_active: false,
                                ..handled.album_list
                            })
                            &&& post.song_list == (List {
                                is_active: true,
                                ..handled.song_list
                            })
                        } else {
                            &&& r matches Some(m) && m matches Message::PlaySongs {
                                offset,
                                songs,
                            } && offset == handled.song_list.active_index && songs@
                                == handled.song_list.items@
                            &&& post.active_list_type == handled.active_list_type
                            &&& post.album_list == handled.album_list
                            &&& post.song_list == handled.song_list
                        }
                    },
                    _ => {
                        &&& r is None
                        &&& post.active_list_type == handled.active_list_type
                        &&& post.album_list == handled.album_list
                        &&& post.song_list == handled.song_list
                    },
                }
            })
}

impl ArtistAlbums {
    /// A frame update chases the playing artist, the album cursor and the
    /// song cursor, in that order, and otherwise mirrors the fetched
    /// collections into the lists before asking to refresh the playing
    /// state.
    pub fn tick(&mut self) -> (r: Option<Message>)
        ensures
            artist_albums_tick_rel(*old(self), *final(self), r),
    {
        if !self.now_playing.is_empty() {
            if !self.now_playing.artist_ids[0].eq(&self.artist.id) {
                self.artist.id = self.now_playing.artist_ids[0].clone();
                return Some(Message::RefreshArtist);
            }
        }
        let active_album = self.album_list.get_active_item();
        if !active_album.1.eq(&self.album.id) {
            self.album.id = active_album.1;
            return Some(Message::RefreshAlbum);
        }
        if !name_id_vecs_equal(&self.artist.albums, &self.album_list.items) {
            let items = clone_name_ids(&self.artist.albums);
            self.album_list.set_items(items);
        }
        if !name_id_vecs_equal(&self.album.songs, &self.song_list.items) {
            let items = clone_name_ids(&self.album.songs);
            self.song_list.set_items(items);
        }
        let album_marked = match &self.album_list.current_item_id {
            Option::Some(c) => c.eq(&self.now_playing.album_id),
            Option::None => false,
        };
        if !album_marked {
            self.album_list.current_item_id = Some(self.now_playing.album_id.clone());
        }
        let song_marked = match &self.song_list.current_item_id {
            Option::Some(c) => c.eq(&self.now_playing.song_id),
            Option::None => false,
        };
        if !song_marked {
            self.song_list.current_item_id = Some(self.now_playing.song_id.clone());
        }
        let active_song = self.song_list.get_active_item();
        if !active_song.1.eq(&self.info_window.song.id) {
            self.info_window.song.id = active_song.1;
            return Some(Message::RefreshSong);
        }
        Some(Message::RefreshNowPlaying)
    }

    /// Feeds the key to whichever list holds the cursor, moves the cursor
    /// between the lists on h, l and enter, and answers enter on the song
    /// list with a request to play the listed songs from the selected one
    /// on.
    pub fn handle_key_press(&mut self, key: Key) -> (r: Option<Message>)
        ensures
            artist_albums_key_rel(*old(self), *final(self), key, r),
    {
        let list_reply = if self.active_list_type == AlbumsListFocus::Albums {
            self.album_list.handle_key_press(key)
        } else {
            self.song_list.handle_key_press(key)
        };
        if let Option::Some(message) = list_reply {
            return Some(message);
        }
        match key {
            Key::Char(c) => {
                if c == 'l' {
                    if self.active_list_type == AlbumsListFocus::Albums {
                        self.album_list.is_active = false;
                        self.song_list.is_active = true;
                        self.active_list_type = AlbumsListFocus::Songs;
                    }
                } else if c == 'h' {
                    if self.active_list_type == AlbumsListFocus::Songs {
                        self.song_list.is_active = false;
                        self.album_list.is_active = true;
                        self.active_list_type = AlbumsListFocus::Albums;
                    }
                }
                None
            },
            Key::Enter => {
                if self.active_list_type == AlbumsListFocus::Albums {
                    self.album_list.is_active = false;
                    self.song_list.is_active = true;
                    self.active_list_type = AlbumsListFocus::Songs;
                    None
                } else {
                    Some(
                        Message::PlaySongs {
                            offset: self.song_list.active_index,
                            songs: clone_name_ids(&self.song_list.items),
                        },
                    )
                }
            },
            _ => None,
        }
    }

    pub fn get_area(&self) -> (r: Rect)
        ensures
            r == self.area,
    {
        self.area
    }

    pub fn set_area(&mut self, area: Rect)
        ensures
            *final(self) == (ArtistAlbums { area, ..*old(self) }),
    {
        self.area = area;
    }
}

} // verus!
