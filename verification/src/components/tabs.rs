//! A row of tabs over the artist panels: a key selects a tab, everything
//! else goes to the active panel, and entity queries reach the active panel
//! only.
use crate::components::artist_albums::{artist_albums_key_rel, artist_albums_tick_rel, ArtistAlbums};
use crate::components::artist_info::{artist_info_tick_rel, ArtistInfo};
use crate::components::artist_singles::{
    artist_singles_key_rel,
    artist_singles_tick_rel,
    ArtistSingles,
};
use crate::components::top_songs::{top_songs_key_rel, top_songs_tick_rel, TopSongs};
use crate::key::Key;
use crate::message::Message;
use crate::rect::Rect;
use crate::spotify::album::Album;
use crate::spotify::artist::Artist;
use crate::spotify::now_playing::NowPlaying;
use crate::spotify::song::Song;
use vstd::prelude::*;

verus! {

/// One of the artist panels a tab can hold.
#[derive(Clone, Debug)]
pub enum ArtistPanel {
    Info(ArtistInfo),
    Top(TopSongs),
    Albums(ArtistAlbums),
    Singles(ArtistSingles),
}

/// How one frame update steps a panel, each kind by its own relation.
pub open spec fn panel_tick_rel(pre: ArtistPanel, post: ArtistPanel, r: Option<Message>) -> bool {
    match (pre, post) {
        (ArtistPanel::Info(a), ArtistPanel::Info(b)) => artist_info_tick_rel(a, b, r),
        (ArtistPanel::Top(a), ArtistPanel::Top(b)) => top_songs_tick_rel(a, b, r),
        (ArtistPanel::Albums(a), ArtistPanel::Albums(b)) => artist_albums_tick_rel(a, b, r),
        (ArtistPanel::Singles(a), ArtistPanel::Singles(b)) => artist_singles_tick_rel(a, b, r),
        _ => false,
    }
}

/// How one key press steps a panel, each kind by its own relation.
pub open spec fn panel_key_rel(pre: ArtistPanel, post: ArtistPanel, key: Key, r: Option<
    Message,
>) -> bool {
    match (pre, post) {
        (ArtistPanel::Info(a), ArtistPanel::Info(b)) => a == b && r is None,
        (ArtistPanel::Top(a), ArtistPanel::Top(b)) => top_songs_key_rel(a, b, key, r),
        (ArtistPanel::Albums(a), ArtistPanel::Albums(b)) => artist_albums_key_rel(a, b, key, r),
        (ArtistPanel::Singles(a), ArtistPanel::Singles(b)) => artist_singles_key_rel(
            a,
            b,
            key,
            r,
        ),
        _ => false,
    }
}

impl ArtistPanel {
    /// The playing state this panel owns.
    pub open spec fn now_playing_of(self) -> Option<NowPlaying> {
        match self {
            ArtistPanel::Info(p) => Some(p.now_playing),
            ArtistPanel::Top(p) => Some(p.now_playing),
            ArtistPanel::Albums(p) => Some(p.now_playing),
            ArtistPanel::Singles(p) => Some(p.now_playing),
        }
    }

    /// The panel with its playing state replaced.
    pub open spec fn with_now_playing(self, np: NowPlaying) -> ArtistPanel {
        match self {
            ArtistPanel::Info(p) => ArtistPanel::Info(ArtistInfo { now_playing: np, ..p }),
            ArtistPanel::Top(p) => ArtistPanel::Top(TopSongs { now_playing: np, ..p }),
            ArtistPanel::Albums(p) => ArtistPanel::Albums(ArtistAlbums { now_playing: np, ..p }),
            ArtistPanel::Singles(p) => ArtistPanel::Singles(
                ArtistSingles { now_playing: np, ..p },
            ),
        }
    }

    /// The artist this panel owns.
    pub open spec fn artist_of(self) -> Option<Artist> {
        match self {
            ArtistPanel::Info(p) => Some(p.artist),
            ArtistPanel::Top(p) => Some(p.artist),
            ArtistPanel::Albums(p) => Some(p.artist),
            ArtistPanel::Singles(p) => Some(p.artist),
        }
    }

    /// The panel with its artist replaced.
    pub open spec fn with_artist(self, artist: Artist) -> ArtistPanel {
        match self {
            ArtistPanel::Info(p) => ArtistPanel::Info(ArtistInfo { artist, ..p }),
            ArtistPanel::Top(p) => ArtistPanel::Top(TopSongs { artist, ..p }),
            ArtistPanel::Albums(p) => ArtistPanel::Albums(ArtistAlbums { artist, ..p }),
            ArtistPanel::Singles(p) => ArtistPanel::Singles(ArtistSingles { artist, ..p }),
        }
    }

    /// The album this panel owns, if it shows one.
    pub open spec fn album_of(self) -> Option<Album> {
        match self {
            ArtistPanel::Albums(p) => Some(p.album),
            ArtistPanel::Singles(p) => Some(p.album),
            _ => None,
        }
    }

    /// The panel with its album replaced, where it owns one.
    pub open spec fn with_album(self, album: Album) -> ArtistPanel {
        match self {
            ArtistPanel::Albums(p) => ArtistPanel::Albums(ArtistAlbums { album, ..p }),
            ArtistPanel::Singles(p) => ArtistPanel::Singles(ArtistSingles { album, ..p }),
            _ => self,
        }
    }

    /// The song this panel owns, if it shows one.
    pub open spec fn song_of(self) -> Option<Song> {
        match self {
            ArtistPanel::Top(p) => Some(p.info_window.song),
            ArtistPanel::Albums(p) => Some(p.info_window.song),
            ArtistPanel::Singles(p) => Some(p.info_window.song),
            _ => None,
        }
    }

    /// The panel with its song replaced, where it owns one.
    pub open spec fn with_song(self, song: Song) -> ArtistPanel {
        match self {
            ArtistPanel::Top(p) => ArtistPanel::Top(
                TopSongs {
                    info_window: crate::components::song_info_window::SongInfoWindow {
                        song,
                        ..p.info_window
                    },
                    ..p
                },
            ),
            ArtistPanel::Albums(p) => ArtistPanel::Albums(
                ArtistAlbums {
                    info_window: crate::components::song_info_window::SongInfoWindow {
                        song,
                        ..p.info_window
                    },
                    ..p
                },
            ),
            ArtistPanel::Singles(p) => ArtistPanel::Singles(
                ArtistSingles {
                    info_window: crate::components::song_info_window::SongInfoWindow {
                        song,
                        ..p.info_window
                    },
                    ..p
                },
            ),
            _ => self,
        }
    }

    pub fn get_now_playing(&self) -> (r: Option<&NowPlaying>)
        ensures
            match r {
                Some(np) => self.now_playing_of() == Some(*np),
                None => self.now_playing_of() is None,
            },
    {
        match self {
            ArtistPanel::Info(p) => Some(&p.now_playing),
            ArtistPanel::Top(p) => Some(&p.now_playing),
            ArtistPanel::Albums(p) => Some(&p.now_playing),
            ArtistPanel::Singles(p) => Some(&p.now_playing),
        }
    }

    pub fn set_now_playing(&mut self, np: NowPlaying) -> (ok: bool)
        ensures
            ok == (old(self).now_playing_of() is Some),
            ok ==> *final(self) == old(self).with_now_playing(np),
            !ok ==> *final(self) == *old(self),
    {
        match self {
            ArtistPanel::Info(p) => {
                p.now_playing = np;
                true
            },
            ArtistPanel::Top(p) => {
                p.now_playing = np;
                true
            },
            ArtistPanel::Albums(p) => {
                p.now_playing = np;
                true
            },
            ArtistPanel::Singles(p) => {
                p.now_playing = np;
                true
            },
        }
    }

    pub fn get_artist(&self) -> (r: Option<&Artist>)
        ensures
            match r {
                Some(a) => self.artist_of() == Some(*a),
                None => self.artist_of() is None,
            },
    {
        match self {
            ArtistPanel::Info(p) => Some(&p.artist),
            ArtistPanel::Top(p) => Some(&p.artist),
            ArtistPanel::Albums(p) => Some(&p.artist),
            ArtistPanel::Singles(p) => Some(&p.artist),
        }
    }

    pub fn set_artist(&mut self, artist: Artist) -> (ok: bool)
        ensures
            ok == (old(self).artist_of() is Some),
            ok ==> *final(self) == old(self).with_artist(artist),
            !ok ==> *final(self) == *old(self),
    {
        match self {
            ArtistPanel::Info(p) => {
                p.artist = artist;
                true
            },
            ArtistPanel::Top(p) => {
                p.artist = artist;
                true
            },
            ArtistPanel::Albums(p) => {
                p.artist = artist;
                true
            },
            ArtistPanel::Singles(p) => {
                p.artist = artist;
                true
            },
        }
    }

    pub fn get_album(&self) -> (r: Option<&Album>)
        ensures
            match r {
                Some(a) => self.album_of() == Some(*a),
                None => self.album_of() is None,
            },
    {
        match self {
            ArtistPanel::Albums(p) => Some(&p.album),
            ArtistPanel::Singles(p) => Some(&p.album),
            _ => None,
        }
    }

    pub fn set_album(&mut self, album: Album) -> (ok: bool)
        ensures
            ok == (old(self).album_of() is Some),
            ok ==> *final(self) == old(self).with_album(album),
            !ok ==> *final(self) == *old(self),
    {
        match self {
            ArtistPanel::Albums(p) => {
                p.album = album;
                true
            },
            ArtistPanel::Singles(p) => {
                p.album = album;
                true
            },
            _ => false,
        }
    }

    pub fn get_song(&self) -> (r: Option<&Song>)
        ensures
            match r {
                Some(s) => self.song_of() == Some(*s),
                None => self.song_of() is None,
            },
    {
        match self {
            ArtistPanel::Top(p) => Some(&p.info_window.song),
            ArtistPanel::Albums(p) => Some(&p.info_window.song),
            ArtistPanel::Singles(p) => Some(&p.info_window.song),
            _ => None,
        }
    }

    pub fn set_song(&mut self, song: Song) -> (ok: bool)
        ensures
            ok == (old(self).song_of() is Some),
            ok ==> *final(self) == old(self).with_song(song),
            !ok ==> *final(self) == *old(self),
    {
        match self {
            ArtistPanel::Top(p) => {
                p.info_window.song = song;
                true
            },
            ArtistPanel::Albums(p) => {
                p.info_window.song = song;
                true
            },
            ArtistPanel::Singles(p) => {
                p.info_window.song = song;
                true
            },
            _ => false,
        }
    }

    /// One frame update of the panel.
    pub fn tick(&mut self) -> (r: Option<Message>)
        ensures
            panel_tick_rel(*old(self), *final(self), r),
    {
        match self {
            ArtistPanel::Info(p) => p.tick(),
            ArtistPanel::Top(p) => p.tick(),
            ArtistPanel::Albums(p) => p.tick(),
            ArtistPanel::Singles(p) => p.tick(),
        }
    }

    /// One key press on the panel.
    pub fn handle_key_press(&mut self, key: Key) -> (r: Option<Message>)
        ensures
            panel_key_rel(*old(self), *final(self), key, r),
    {
        match self {
            ArtistPanel::Info(p) => p.handle_key_press(key),
            ArtistPanel::Top(p) => p.handle_key_press(key),
            ArtistPanel::Albums(p) => p.handle_key_press(key),
            ArtistPanel::Singles(p) => p.handle_key_press(key),
        }
    }

    pub fn set_area(&mut self, area: Rect)
        ensures
            *final(self) == (match *old(self) {
                ArtistPanel::Info(p) => ArtistPanel::Info(ArtistInfo { area, ..p }),
                ArtistPanel::Top(p) => ArtistPanel::Top(TopSongs { area, ..p }),
                ArtistPanel::Albums(p) => ArtistPanel::Albums(ArtistAlbums { area, ..p }),
                ArtistPanel::Singles(p) => ArtistPanel::Singles(ArtistSingles { area, ..p }),
            }),
    {
        match self {
            ArtistPanel::Info(p) => p.set_area(area),
            ArtistPanel::Top(p) => p.set_area(area),
            ArtistPanel::Albums(p) => p.set_area(area),
            ArtistPanel::Singles(p) => p.set_area(area),
        }
    }
}

/// One tab: a title, the key that selects it, and the panel it shows.
#[derive(Clone, Debug)]
pub struct Tab {
    pub title: String,
    pub key: Key,
    pub component: ArtistPanel,
}

impl Tab {
    pub fn new(title: &str, key: Key, component: ArtistPanel) -> (r: Tab)
        ensures
            r.title@ == title@,
            r.key == key,
            r.component == component,
    {
        Tab { title: title.to_owned(), key, component }
    }
}

#[derive(Clone, Debug)]
pub struct TabbedView {
    pub tabs: Vec<Tab>,
    pub active_tab: usize,
}

impl TabbedView {
    pub fn new(tabs: Vec<Tab>) -> (r: TabbedView)
        ensures
            r.tabs == tabs,
            r.active_tab == 0,
    {
        TabbedView { tabs, active_tab: 0 }
    }

    /// The active tab's panel, if the active index names a tab.
    pub open spec fn active_panel_of(self) -> Option<ArtistPanel> {
        if self.active_tab < self.tabs@.len() {
            Some(self.tabs@[self.active_tab as int].component)
        } else {
            None
        }
    }

    /// Everything but the active tab's panel kept: the active index, the
    /// other tabs, and the active tab's title and key.
    pub open spec fn frame_kept(pre: TabbedView, post: TabbedView) -> bool {
        &&& post.active_tab == pre.active_tab
        &&& post.tabs@.len() == pre.tabs@.len()
        &&& forall|j: int|
            0 <= j < pre.tabs@.len() && j != pre.active_tab ==> post.tabs@[j] == pre.tabs@[j]
        &&& pre.active_tab < pre.tabs@.len() ==> post.tabs@[pre.active_tab as int].title
            == pre.tabs@[pre.active_tab as int].title && post.tabs@[pre.active_tab as int].key
            == pre.tabs@[pre.active_tab as int].key
    }

    /// A frame update steps the active panel only.
    pub fn tick(&mut self) -> (r: Option<Message>)
        ensures
            old(self).active_tab >= old(self).tabs@.len() ==> *final(self) == *old(self) && r
                is None,
            old(self).active_tab < old(self).tabs@.len() ==> {
                &&& TabbedView::frame_kept(*old(self), *final(self))
                &&& panel_tick_rel(
                    old(self).tabs@[old(self).active_tab as int].component,
                    final(self).tabs@[old(self).active_tab as int].component,
                    r,
                )
            },
    {
        if self.active_tab < self.tabs.len() {
            let at = self.active_tab;
            let mut tab = self.tabs.remove(at);
            let r = tab.component.tick();
            self.tabs.insert(at, tab);
            proof {
                assert(forall|j: int|
                    0 <= j < old(self).tabs@.len() && j != at ==> self.tabs@[j] == old(
                        self,
                    ).tabs@[j]);
            }
            r
        } else {
            None
        }
    }

    /// A key that names a tab selects it; any other key goes to the active
    /// panel.
    pub fn handle_key_press(&mut self, key: Key) -> (r: Option<Message>)
        ensures
            ({
                let pre = *old(self);
                let post = *final(self);
                if exists|i: int| 0 <= i < pre.tabs@.len() && pre.tabs@[i].key == key {
                    &&& r is None
                    &&& post.tabs == pre.tabs
                    &&& exists|i: int|
                        {
                            &&& 0 <= i < pre.tabs@.len()
                            &&& pre.tabs@[i].key == key
                            &&& (forall|j: int| 0 <= j < i ==> pre.tabs@[j].key != key)
                            &&& post.active_tab == i
                        }
                } else if pre.active_tab < pre.tabs@.len() {
                    &&& TabbedView::frame_kept(pre, post)
                    &&& panel_key_rel(
                        pre.tabs@[pre.active_tab as int].component,
                        post.tabs@[pre.active_tab as int].component,
                        key,
                        r,
                    )
                } else {
                    post == pre && r is None
                }
            }),
    {
        let mut i: usize = 0;
        while i < self.tabs.len()
            invariant
                *self == *old(self),
                i <= self.tabs@.len(),
                forall|j: int| 0 <= j < i ==> self.tabs@[j].key != key,
            decreases self.tabs@.len() - i,
        {
            if self.tabs[i].key == key {
                self.active_tab = i;
                return None;
            }
            i = i + 1;
        }
        if self.active_tab < self.tabs.len() {
            let at = self.active_tab;
            let mut tab = self.tabs.remove(at);
            let r = tab.component.handle_key_press(key);
            self.tabs.insert(at, tab);
            proof {
                assert(forall|j: int|
                    0 <= j < old(self).tabs@.len() && j != at ==> self.tabs@[j] == old(
                        self,
                    ).tabs@[j]);
            }
            r
        } else {
            None
        }
    }

    /// The playing state of the active panel, reached through the active
    /// tab only.
    pub fn get_now_playing(&self) -> (r: Option<&NowPlaying>)
        ensures
            match r {
                Some(np) => self.active_panel_of() matches Some(p) && p.now_playing_of() == Some(
                    *np,
                ),
                None => match self.active_panel_of() {
                    Some(p) => p.now_playing_of() is None,
                    None => true,
                },
            },
    {
        if self.active_tab < self.tabs.len() {
            self.tabs[self.active_tab].component.get_now_playing()
        } else {
            None
        }
    }

    pub fn set_now_playing(&mut self, np: NowPlaying) -> (ok: bool)
        ensures
            ok == (old(self).active_panel_of() matches Some(p) && p.now_playing_of() is Some),
            ok ==> TabbedView::frame_kept(*old(self), *final(self)) && final(self).tabs@[old(
                self,
            ).active_tab as int].component == old(self).active_panel_of()->Some_0.with_now_playing(np),
            !ok ==> *final(self) == *old(self),
    {
        if self.active_tab < self.tabs.len() {
            let at = self.active_tab;
            let mut tab = self.tabs.remove(at);
            let ok = tab.component.set_now_playing(np);
            self.tabs.insert(at, tab);
            proof {
                assert(forall|j: int|
                    0 <= j < old(self).tabs@.len() && j != at ==> self.tabs@[j] == old(
                        self,
                    ).tabs@[j]);
            }
            ok
        } else {
            false
        }
    }

    /// The artist of the active panel, reached through the active tab only.
    pub fn get_artist(&self) -> (r: Option<&Artist>)
        ensures
            match r {
                Some(a) => self.active_panel_of() matches Some(p) && p.artist_of() == Some(*a),
                None => match self.active_panel_of() {
                    Some(p) => p.artist_of() is None,
                    None => true,
                },
            },
    {
        if self.active_tab < self.tabs.len() {
            self.tabs[self.active_tab].component.get_artist()
        } else {
            None
        }
    }

    pub fn set_artist(&mut self, artist: Artist) -> (ok: bool)
        ensures
            ok == (old(self).active_panel_of() matches Some(p) && p.artist_of() is Some),
            ok ==> TabbedView::frame_kept(*old(self), *final(self)) && final(self).tabs@[old(
                self,
            ).active_tab as int].component == old(self).active_panel_of()->Some_0.with_artist(artist),
            !ok ==> *final(self) == *old(self),
    {
        if self.active_tab < self.tabs.len() {
            let at = self.active_tab;
            let mut tab = self.tabs.remove(at);
            let ok = tab.component.set_artist(artist);
            self.tabs.insert(at, tab);
            proof {
                assert(forall|j: int|
                    0 <= j < old(self).tabs@.len() && j != at ==> self.tabs@[j] == old(
                        self,
                    ).tabs@[j]);
            }
            ok
        } else {
            false
        }
    }

    /// The album of the active panel, reached through the active tab only.
    pub fn get_album(&self) -> (r: Option<&Album>)
        ensures
            match r {
                Some(a) => self.active_panel_of() matches Some(p) && p.album_of() == Some(*a),
                None => match self.active_panel_of() {
                    Some(p) => p.album_of() is None,
                    None => true,
                },
            },
    {
        if self.active_tab < self.tabs.len() {
            self.tabs[self.active_tab].component.get_album()
        } else {
            None
        }
    }

    pub fn set_album(&mut self, album: Album) -> (ok: bool)
        ensures
            ok == (old(self).active_panel_of() matches Some(p) && p.album_of() is Some),
            ok ==> TabbedView::frame_kept(*old(self), *final(self)) && final(self).tabs@[old(
                self,
            ).active_tab as int].component == old(self).active_panel_of()->Some_0.with_album(album),
            !ok ==> *final(self) == *old(self),
    {
        if self.active_tab < self.tabs.len() {
            if self.tabs[self.active_tab].component.get_album().is_none() {
                return false;
            }
            let at = self.active_tab;
            let mut tab = self.tabs.remove(at);
            let ok = tab.component.set_album(album);
            self.tabs.insert(at, tab);
            proof {
                assert(forall|j: int|
                    0 <= j < old(self).tabs@.len() && j != at ==> self.tabs@[j] == old(
                        self,
                    ).tabs@[j]);
            }
            ok
        } else {
            false
        }
    }

    /// The song of the active panel, reached through the active tab only.
    pub fn get_song(&self) -> (r: Option<&Song>)
        ensures
            match r {
                Some(s) => self.active_panel_of() matches Some(p) && p.song_of() == Some(*s),
                None => match self.active_panel_of() {
                    Some(p) => p.song_of() is None,
                    None => true,
                },
            },
    {
        if self.active_tab < self.tabs.len() {
            self.tabs[self.active_tab].component.get_song()
        } else {
            None
        }
    }

    pub fn set_song(&mut self, song: Song) -> (ok: bool)
        ensures
            ok == (old(self).active_panel_of() matches Some(p) && p.song_of() is Some),
            ok ==> TabbedView::frame_kept(*old(self), *final(self)) && final(self).tabs@[old(
                self,
            ).active_tab as int].component == old(self).active_panel_of()->Some_0.with_song(song),
            !ok ==> *final(self) == *old(self),
    {
        if self.active_tab < self.tabs.len() {
            if self.tabs[self.active_tab].component.get_song().is_none() {
                return false;
            }
            let at = self.active_tab;
            let mut tab = self.tabs.remove(at);
            let ok = tab.component.set_song(song);
            self.tabs.insert(at, tab);
            proof {
                assert(forall|j: int|
                    0 <= j < old(self).tabs@.len() && j != at ==> self.tabs@[j] == old(
                        self,
                    ).tabs@[j]);
            }
            ok
        } else {
            false
        }
    }
}

} // verus!
