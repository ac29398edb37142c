//! The now-playing screen: the playing state and the playing song's
//! details, with the playback keys.
use crate::key::Key;
use crate::message::Message;
use crate::screens::queue::QueueScreen;
use crate::screens::screen::Screen;
use crate::screens::search::SearchScreen;
use crate::spotify::now_playing::NowPlaying;
use crate::spotify::song::Song;
use vstd::prelude::*;

verus! {

#[derive(Clone, Debug)]
pub struct NowPlayingScreen {
    pub now_playing: NowPlaying,
    pub song: Song,
}

impl Default for NowPlayingScreen {
    fn default() -> (r: NowPlayingScreen)
        ensures
            r.now_playing.is_empty_spec(),
            r.now_playing.song_id@.len() == 0,
            r.song.is_empty_spec(),
            r.song.id@.len() == 0,
    {
        NowPlayingScreen { now_playing: NowPlaying::default(), song: Song::default() }
    }
}

/// What one frame update does to the screen and which message it answers
/// with, mirrored step for step by `tick`.
pub open spec fn now_playing_tick_rel(pre: NowPlayingScreen, post: NowPlayingScreen, r: Option<
    Message,
>) -> bool {
    &&& post.now_playing == pre.now_playing
    &&& if pre.now_playing.song_id@ != pre.song.id@ {
        &&& post.song == (Song { id: pre.now_playing.song_id, ..pre.song })
        &&& r == Some(Message::RefreshSong)
    } else {
        &&& post.song == pre.song
        &&& r == Some(Message::RefreshNowPlaying)
    }
}

/// What one key press does to the screen, and which
/// message it answers with, mirrored by `handle_key_press`.
pub open spec fn now_playing_key_rel(pre: NowPlayingScreen, post: NowPlayingScreen, key: Key, r: Option<
    Message,
>) -> bool {
    &&& match key {
                Key::Char(c) => {
                    if c == 'p' {
                        r == Some(Message::PausePlay)
                    } else if c == 's' {
                        r == Some(Message::Shuffle)
                    } else if c == 'l' {
                        r == Some(Message::NextSong)
                    } else if c == 'h' {
                        r == Some(Message::PrevSong)
                    } else if c == 'q' {
                        r matches Some(m) && m matches Message::ChangeScreen { new_screen }
                            && *new_screen matches Screen::Queue(_)
                    } else if c == '/' {
                        r matches Some(m) && m matches Message::ChangeScreen { new_screen }
                            && *new_screen matches Screen::Search(_)
                    } else {
                        r is None
                    }
                },
                _ => r is None,
    }
}

impl NowPlayingScreen {
    /// A frame update chases the playing song: while the owned song's id
    /// differs from the playing one, the screen adopts the playing id and
    /// asks for the song's data — exactly once per id change; once the ids
    /// agree it asks to refresh the playing state instead.
    pub fn tick(&mut self) -> (r: Option<Message>)
        ensures
            now_playing_tick_rel(*old(self), *final(self), r),
    {
        if !self.now_playing.song_id.eq(&self.song.id) {
            self.song.id = self.now_playing.song_id.clone();
            return Some(Message::RefreshSong);
        }
        Some(Message::RefreshNowPlaying)
    }

    /// The playback keys: pause-play on p, shuffle on s, next and previous
    /// on l and h, the queue on q and the search on the slash.
    pub fn handle_key_press(&self, key: Key) -> (r: Option<Message>)
        ensures
            now_playing_key_rel(*self, *self, key, r),
    {
        match key {
            Key::Char(c) => {
                if c == 'p' {
                    Some(Message::PausePlay)
                } else if c == 's' {
                    Some(Message::Shuffle)
                } else if c == 'l' {
                    Some(Message::NextSong)
                } else if c == 'h' {
                    Some(Message::PrevSong)
                } else if c == 'q' {
                    Some(
                        Message::ChangeScreen {
                            new_screen: Box::new(Screen::Queue(QueueScreen::default())),
                        },
                    )
                } else if c == '/' {
                    Some(
                        Message::ChangeScreen {
                            new_screen: Box::new(Screen::Search(SearchScreen::default())),
                        },
                    )
                } else {
                    None
                }
            },
            _ => None,
        }
    }
}

} // verus!
