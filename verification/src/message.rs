//! The closed union of intents a screen or component can produce on one
//! frame. A message is transient: produced, dispatched and discarded within
//! one cycle.
use crate::screens::screen::Screen;
use crate::spotify::NameAndId;
use vstd::prelude::*;

verus! {

#[derive(Debug)]
pub enum Message {
    ChangeScreen { new_screen: Box<Screen> },
    GoToPrevScreen,
    GoToNextScreen,
    SetAuthCode { code: String },
    RefreshNowPlaying,
    RefreshDevice,
    RefreshSong,
    RefreshAlbum,
    RefreshArtist,
    RefreshSearchResults,
    PausePlay,
    Shuffle,
    NextSong,
    PrevSong,
    SetDevice { name: String, id: String },
    PlaySongOnAlbum { track_number: u64, album_id: String },
    PlaySongs { offset: usize, songs: Vec<NameAndId> },
}

impl Message {
    /// What every message a component hands the dispatcher satisfies: a
    /// track number names a track, so it is one-based.
    pub open spec fn wf(self) -> bool {
        match self {
            Message::PlaySongOnAlbum { track_number, .. } => track_number >= 1,
            _ => true,
        }
    }
}

} // verus!
