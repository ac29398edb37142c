//! The album screen: the playing album's track list beside the selected
//! track's details.
use crate::components::album_song_list::AlbumSongList;
use crate::components::song_info_window::SongInfoWindow;
use crate::key::Key;
use crate::message::Message;
use crate::spotify::now_playing::NowPlaying;
use crate::spotify::song::Song;
use vstd::prelude::*;

verus! {

#[derive(Clone, Debug)]
pub struct ViewAlbumScreen {
    pub now_playing: NowPlaying,
    pub song_list: AlbumSongList,
    pub info_window: SongInfoWindow,
}

impl Default for ViewAlbumScreen {
    fn default() -> (r: ViewAlbumScreen)
        ensures
            r.now_playing.is_empty_spec(),
            r.song_list.album.is_empty_spec(),
            r.info_window.song.is_empty_spec(),
    {
        ViewAlbumScreen {
            now_playing: NowPlaying::default(),
            song_list: AlbumSongList::default(),
            info_window: SongInfoWindow::default(),
        }
    }
}

/// What one frame update does to the screen and which message it answers
/// with, mirrored step for step by `tick`.
pub open spec fn view_album_tick_rel(pre: ViewAlbumScreen, post: ViewAlbumScreen, r: Option<
    Message,
>) -> bool {
    let marked = if pre.now_playing.song_id@ != pre.song_list.current_song_id@ {
        AlbumSongList { current_song_id: pre.now_playing.song_id, ..pre.song_list }
    } else {
        pre.song_list
    };
    let active = if !marked.album.is_empty_spec() && marked.active_song_index
        < marked.album.songs@.len() {
        marked.album.songs@[marked.active_song_index as int].1@
    } else {
        Seq::<char>::empty()
    };
    &&& post.now_playing == pre.now_playing
    &&& if active != pre.info_window.song.id@ {
        // the cursor moved to another track: show it and ask for its data
        &&& post.song_list == marked
        &&& post.info_window == (SongInfoWindow {
            song: Song { id: post.info_window.song.id, ..pre.info_window.song },
            ..pre.info_window
        })
        &&& post.info_window.song.id@ == active
        &&& r == Some(Message::RefreshSong)
    } else if pre.now_playing.album_id@ != marked.album.id@ {
        // another album is playing: point the list at it and ask for it
        &&& post.info_window == pre.info_window
        &&& post.song_list == (AlbumSongList {
            album: crate::spotify::album::Album { id: pre.now_playing.album_id, ..marked.album },
            song_start_index: 0,
            active_song_index: 0,
            album_changed: true,
            ..marked
        })
        &&& r == Some(Message::RefreshAlbum)
    } else {
        &&& post.info_window == pre.info_window
        &&& post.song_list == marked
        &&& r == Some(Message::RefreshNowPlaying)
    }
}

/// What one key press does to the screen, and which
/// message it answers with, mirrored by `handle_key_press`.
pub open spec fn view_album_key_rel(pre: ViewAlbumScreen, post: ViewAlbumScreen, key: Key, r: Option<
    Message,
>) -> bool {
    &&& post.now_playing == pre.now_playing
    &&& post.info_window == pre.info_window
    &&& match key {
                Key::Char(c) => {
                    &&& r is None
                    &&& if c == 'j' && pre.song_list.album.songs@.len() > 0 {
                        post.song_list == pre.song_list.spec_on_key_j()
                    } else if c == 'k' && pre.song_list.album.songs@.len() > 0 {
                        post.song_list == pre.song_list.spec_on_key_k()
                    } else {
                        post.song_list == pre.song_list
                    }
                },
                Key::Enter => {
                    &&& post.song_list == pre.song_list
                    &&& r matches Some(m) && m matches Message::PlaySongOnAlbum {
                        track_number,
                        album_id,
                    } && track_number == crate::components::list::inc_clipped(
                        pre.song_list.active_song_index as int,
                    ) as u64 && album_id == pre.song_list.album.id
                    &&& r->Some_0.wf()
                },
                _ => r is None && post.song_list == pre.song_list,
    }
}

impl ViewAlbumScreen {
    /// A frame update marks the playing track, chases the song cursor, and
    /// chases the playing album, in that order.
    pub fn tick(&mut self) -> (r: Option<Message>)
        ensures
            view_album_tick_rel(*old(self), *final(self), r),
    {
        if !self.now_playing.song_id.eq(&self.song_list.current_song_id) {
            self.song_list.current_song_id = self.now_playing.song_id.clone();
        }
        let active_song_id = self.song_list.get_active_song_id();
        if !active_song_id.eq(&self.info_window.song.id) {
            self.info_window.song.id = active_song_id;
            return Some(Message::RefreshSong);
        }
        if !self.now_playing.album_id.eq(&self.song_list.album.id) {
            self.song_list.set_album_id(self.now_playing.album_id.clone());
            return Some(Message::RefreshAlbum);
        }
        Some(Message::RefreshNowPlaying)
    }

    /// Every key goes to the track list: movement on j and k, playing the
    /// selected track on enter.
    pub fn handle_key_press(&mut self, key: Key) -> (r: Option<Message>)
        ensures
            view_album_key_rel(*old(self), *final(self), key, r),
    {
        self.song_list.handle_key_press(key)
    }
}

} // verus!
