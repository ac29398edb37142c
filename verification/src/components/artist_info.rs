//! The artist-overview panel: name, followers, listeners and genres of the
//! artist behind the playing song.
use crate::key::Key;
use crate::message::Message;
use crate::rect::Rect;
use crate::spotify::artist::Artist;
use crate::spotify::now_playing::NowPlaying;
use vstd::prelude::*;

verus! {

#[derive(Clone, Debug)]
pub struct ArtistInfo {
    pub area: Rect,
    pub now_playing: NowPlaying,
    pub artist: Artist,
}

impl Default for ArtistInfo {
    fn default() -> (r: ArtistInfo)
        ensures
            r.now_playing.is_empty_spec(),
            r.artist.id@.len() == 0,
            r.artist.is_empty_spec(),
    {
        ArtistInfo { area: Rect::zero(), now_playing: NowPlaying::default(), artist: Artist::default() }
    }
}

/// What one frame update does to the panel and which message it answers
/// with, mirrored step for step by `tick`.
pub open spec fn artist_info_tick_rel(pre: ArtistInfo, post: ArtistInfo, r: Option<Message>) -> bool {
    &&& post.area == pre.area
    &&& post.now_playing == pre.now_playing
    &&& if !pre.now_playing.is_empty_spec() && pre.now_playing.artist_ids@[0]@ != pre.artist.id@ {
        &&& post.artist == (Artist { id: pre.now_playing.artist_ids@[0], ..pre.artist })
        &&& r == Some(Message::RefreshArtist)
    } else {
        &&& post.artist == pre.artist
        &&& r == Some(Message::RefreshNowPlaying)
    }
}

impl ArtistInfo {
    /// A frame update chases the playing artist: when the playing song's
    /// first artist differs from the one shown, the panel adopts that id and
    /// asks for an artist refresh; otherwise it asks to refresh the playing
    /// state.
    pub fn tick(&mut self) -> (r: Option<Message>)
        ensures
            artist_info_tick_rel(*old(self), *final(self), r),
    {
        if !self.now_playing.is_empty() && !self.now_playing.artist_ids[0].eq(&self.artist.id) {
            self.artist.id = self.now_playing.artist_ids[0].clone();
            return Some(Message::RefreshArtist);
        }
        Some(Message::RefreshNowPlaying)
    }

    /// The panel takes no keys.
    pub fn handle_key_press(&self, key: Key) -> (r: Option<Message>)
        ensures
            r is None,
    {
        None
    }

    pub fn get_area(&self) -> (r: Rect)
        ensures
            r == self.area,
    {
        self.area
    }

    pub fn set_area(&mut self, area: Rect)
        ensures
            *final(self) == (ArtistInfo { area, ..*old(self) }),
    {
        self.area = area;
    }
}

} // verus!
