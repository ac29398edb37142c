//! The track list of one album, with a sliding window and a play action on
//! the selected track.
use crate::components::list::inc_clipped;
use crate::key::Key;
use crate::message::Message;
use crate::rect::Rect;
use crate::spotify::album::Album;
use vstd::prelude::*;

verus! {

#[derive(Clone, Debug)]
pub struct AlbumSongList {
    pub album: Album,
    pub current_song_id: String,
    pub area: Rect,
    pub max_songs_shown: u16,
    pub active_song_index: usize,
    pub song_start_index: usize,
    pub song_end_index: usize,
    pub album_changed: bool,
}

impl Default for AlbumSongList {
    fn default() -> (r: AlbumSongList)
        ensures
            r.album.id@.len() == 0,
            r.album.is_empty_spec(),
            r.current_song_id@.len() == 0,
            r.max_songs_shown == 0,
            r.active_song_index == 0,
            r.song_start_index == 0,
            r.song_end_index == 0,
            !r.album_changed,
    {
        AlbumSongList {
            album: Album::default(),
            current_song_id: String::new(),
            area: Rect::zero(),
            max_songs_shown: 0,
            active_song_index: 0,
            song_start_index: 0,
            song_end_index: 0,
            album_changed: false,
        }
    }
}

impl AlbumSongList {
    /// Adopts a screen region: the window height follows it, and a pending
    /// album change lays the window out afresh.
    pub fn set_area(&mut self, area: Rect)
        ensures
            final(self).area == area,
            final(self).max_songs_shown == (if area.height >= 2 {
                (area.height - 2) as u16
            } else {
                0u16
            }),
            old(self).album_changed ==> final(self).song_end_index == final(self).max_songs_shown
                && !final(self).album_changed,
            !old(self).album_changed ==> final(self).song_end_index == old(self).song_end_index
                && !final(self).album_changed,
            final(self).album == old(self).album,
            final(self).current_song_id == old(self).current_song_id,
            final(self).active_song_index == old(self).active_song_index,
            final(self).song_start_index == old(self).song_start_index,
    {
        let max_songs_shown: u16 = if area.height >= 2 {
            area.height - 2
        } else {
            0
        };
        self.area = area;
        self.max_songs_shown = max_songs_shown;
        if self.album_changed {
            self.song_end_index = max_songs_shown as usize;
            self.album_changed = false;
        }
    }

    /// Points the list at another album: the identity key changes, the
    /// cursor and window go back to the top, and the attributes await the
    /// refresh the change will trigger.
    pub fn set_album_id(&mut self, album_id: String)
        ensures
            final(self).album == (Album { id: album_id, ..old(self).album }),
            final(self).song_start_index == 0,
            final(self).active_song_index == 0,
            final(self).album_changed,
            final(self).current_song_id == old(self).current_song_id,
            final(self).area == old(self).area,
            final(self).max_songs_shown == old(self).max_songs_shown,
            final(self).song_end_index == old(self).song_end_index,
    {
        self.album.id = album_id;
        self.song_start_index = 0;
        self.active_song_index = 0;
        self.album_changed = true;
    }

    /// The id of the track under the cursor; the empty string while the
    /// album is unloaded or the cursor is outside the list.
    pub fn get_active_song_id(&self) -> (r: String)
        ensures
            !self.album.is_empty_spec() && self.active_song_index < self.album.songs@.len() ==> r
                == self.album.songs@[self.active_song_index as int].1,
            !self.album.is_empty_spec() && self.active_song_index >= self.album.songs@.len() ==> r@
                =~= Seq::<char>::empty(),
            self.album.is_empty_spec() ==> r@ =~= Seq::<char>::empty(),
    {
        if !self.album.is_empty() && self.active_song_index < self.album.songs.len() {
            self.album.songs[self.active_song_index].1.clone()
        } else {
            String::new()
        }
    }

    /// The list after a j key: the cursor moves down one track, the window
    /// sliding with it, and wraps to the top with the window reset.
    pub open spec fn spec_on_key_j(self) -> AlbumSongList {
        let (start1, end1) = if self.active_song_index + 1 >= self.song_end_index {
            (inc_clipped(self.song_start_index as int), inc_clipped(self.song_end_index as int))
        } else {
            (self.song_start_index as int, self.song_end_index as int)
        };
        if self.active_song_index + 1 < self.album.songs@.len() {
            AlbumSongList {
                active_song_index: (self.active_song_index + 1) as usize,
                song_start_index: start1 as usize,
                song_end_index: end1 as usize,
                ..self
            }
        } else {
            AlbumSongList {
                active_song_index: 0,
                song_start_index: 0,
                song_end_index: self.max_songs_shown as usize,
                ..self
            }
        }
    }

    /// The list after a k key: the cursor moves up one track, the window
    /// sliding with it, and wraps to the bottom with the window moved to
    /// the end of the album.
    pub open spec fn spec_on_key_k(self) -> AlbumSongList {
        let (start1, end1) = if self.active_song_index <= self.song_start_index
            && self.active_song_index != 0 {
            (
                self.song_start_index - 1,
                if self.song_end_index > 0 {
                    self.song_end_index - 1
                } else {
                    0int
                },
            )
        } else {
            (self.song_start_index as int, self.song_end_index as int)
        };
        if self.active_song_index == 0 {
            AlbumSongList {
                active_song_index: (self.album.songs@.len() - 1) as usize,
                song_start_index: if self.album.total_songs < self.max_songs_shown as u64 {
                    0 as usize
                } else {
                    (self.album.total_songs - self.max_songs_shown as u64) as usize
                },
                song_end_index: self.album.songs@.len() as usize,
                ..self
            }
        } else {
            AlbumSongList {
                active_song_index: (self.active_song_index - 1) as usize,
                song_start_index: start1 as usize,
                song_end_index: end1 as usize,
                ..self
            }
        }
    }

    /// Moves the cursor on j and k, and answers enter with a request to
    /// play the selected track of this album, its number one-based. Any key
    /// on an empty track list only moves nothing.
    pub fn handle_key_press(&mut self, key: Key) -> (r: Option<Message>)
        ensures
            match key {
                Key::Char(c) => {
                    &&& r is None
                    &&& if c == 'j' && old(self).album.songs@.len() > 0 {
                        *final(self) == old(self).spec_on_key_j()
                    } else if c == 'k' && old(self).album.songs@.len() > 0 {
                        *final(self) == old(self).spec_on_key_k()
                    } else {
                        *final(self) == *old(self)
                    }
                },
                Key::Enter => {
                    &&& *final(self) == *old(self)
                    &&& r matches Some(m) && m matches Message::PlaySongOnAlbum {
                        track_number,
                        album_id,
                    } && track_number == inc_clipped(old(self).active_song_index as int) as u64
                        && album_id == old(self).album.id
                    &&& r->Some_0.wf()
                },
                _ => r is None && *final(self) == *old(self),
            },
    {
        match key {
            Key::Char(c) => {
                if c == 'j' && self.album.songs.len() > 0 {
                    if self.song_end_index == 0 || self.active_song_index >= self.song_end_index
                        - 1 {
                        if self.song_start_index < usize::MAX {
                            self.song_start_index = self.song_start_index + 1;
                        }
                        if self.song_end_index < usize::MAX {
                            self.song_end_index = self.song_end_index + 1;
                        }
                    }
                    if self.active_song_index < self.album.songs.len() - 1 {
                        self.active_song_index = self.active_song_index + 1;
                    } else {
                        self.active_song_index = 0;
                        self.song_start_index = 0;
                        self.song_end_index = self.max_songs_shown as usize;
                    }
                } else if c == 'k' && self.album.songs.len() > 0 {
                    if self.active_song_index <= self.song_start_index && self.active_song_index
                        != 0 {
                        self.song_start_index = self.song_start_index - 1;
                        if self.song_end_index > 0 {
                            self.song_end_index = self.song_end_index - 1;
                        }
                    }
                    if self.active_song_index == 0 {
                        self.active_song_index = self.album.songs.len() - 1;
                        self.song_end_index = self.album.songs.len();
                        if self.album.total_songs < self.max_songs_shown as u64 {
                            self.song_start_index = 0;
                        } else {
                            let start64 = self.album.total_songs - self.max_songs_shown as u64;
                            self.song_start_index = start64 as usize;
                        }
                    } else {
                        self.active_song_index = self.active_song_index - 1;
                    }
                }
                None
            },
            Key::Enter => {
                let track_number: u64 = if self.active_song_index < usize::MAX {
                    (self.active_song_index + 1) as u64
                } else {
                    usize::MAX as u64
                };
                Some(
                    Message::PlaySongOnAlbum { track_number, album_id: self.album.id.clone() },
                )
            },
            _ => None,
        }
    }

    /// A frame update leaves the list alone and never answers with a
    /// message.
    pub fn tick(&self) -> (r: Option<Message>)
        ensures
            r is None,
    {
        None
    }
}

} // verus!
