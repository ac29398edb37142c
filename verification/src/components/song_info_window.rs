//! A read-only panel showing the attributes of one song.
use crate::key::Key;
use crate::message::Message;
use crate::rect::Rect;
use crate::spotify::song::Song;
use vstd::prelude::*;

verus! {

#[derive(Clone, Debug)]
pub struct SongInfoWindow {
    pub song: Song,
    pub area: Rect,
}

impl Default for SongInfoWindow {
    fn default() -> (r: SongInfoWindow)
        ensures
            r.song.id@.len() == 0,
            r.song.is_empty_spec(),
            r.area == (Rect { x: 0, y: 0, width: 0, height: 0 }),
    {
        SongInfoWindow { song: Song::default(), area: Rect::zero() }
    }
}

impl SongInfoWindow {
    pub fn set_area(&mut self, area: Rect)
        ensures
            final(self).area == area,
            final(self).song == old(self).song,
    {
        self.area = area;
    }

    /// A frame update leaves the window alone and never answers with a
    /// message.
    pub fn tick(&self) -> (r: Option<Message>)
        ensures
            r is None,
    {
        None
    }

    /// The window takes no keys.
    pub fn handle_key_press(&self, key: Key) -> (r: Option<Message>)
        ensures
            r is None,
    {
        None
    }
}

} // verus!
