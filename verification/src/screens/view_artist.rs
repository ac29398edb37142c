//! The artist screen: four tabbed panels over the playing artist — an
//! overview, the top songs, the albums and the singles.
use crate::components::artist_albums::ArtistAlbums;
use crate::components::artist_info::ArtistInfo;
use crate::components::artist_singles::ArtistSingles;
use crate::components::tabs::{panel_key_rel, panel_tick_rel, ArtistPanel, Tab, TabbedView};
use crate::components::top_songs::TopSongs;
use crate::key::Key;
use crate::message::Message;
use vstd::prelude::*;

verus! {

#[derive(Clone, Debug)]
pub struct ViewArtistScreen {
    pub tabbed_view: TabbedView,
}

impl Default for ViewArtistScreen {
    fn default() -> (r: ViewArtistScreen)
        ensures
            r.tabbed_view.tabs@.len() == 4,
            r.tabbed_view.active_tab == 0,
            r.tabbed_view.tabs@[0].component matches ArtistPanel::Info(_),
            r.tabbed_view.tabs@[1].component matches ArtistPanel::Top(_),
            r.tabbed_view.tabs@[2].component matches ArtistPanel::Albums(_),
            r.tabbed_view.tabs@[3].component matches ArtistPanel::Singles(_),
    {
        let mut tabs = Vec::<Tab>::new();
        tabs.push(
            Tab::new("Artist Info", Key::Char('1'), ArtistPanel::Info(ArtistInfo::default())),
        );
        tabs.push(Tab::new("Top Songs", Key::Char('2'), ArtistPanel::Top(TopSongs::default())));
        tabs.push(Tab::new("Albums", Key::Char('3'), ArtistPanel::Albums(ArtistAlbums::default())));
        tabs.push(
            Tab::new(
                "Singles and EPs",
                Key::Char('4'),
                ArtistPanel::Singles(ArtistSingles::default()),
            ),
        );
        ViewArtistScreen { tabbed_view: TabbedView::new(tabs) }
    }
}

/// What one frame update does to the screen and which message it answers
/// with: the active panel steps by its own relation, everything else is
/// kept.
pub open spec fn view_artist_tick_rel(pre: ViewArtistScreen, post: ViewArtistScreen, r: Option<
    Message,
>) -> bool {
    if pre.tabbed_view.active_tab >= pre.tabbed_view.tabs.len() {
        post == pre && r is None
    } else {
        &&& TabbedView::frame_kept(pre.tabbed_view, post.tabbed_view)
        &&& panel_tick_rel(
            pre.tabbed_view.tabs[pre.tabbed_view.active_tab as int].component,
            post.tabbed_view.tabs[pre.tabbed_view.active_tab as int].component,
            r,
        )
    }
}

/// What one key press does to the screen, and which
/// message it answers with, mirrored by `handle_key_press`.
pub open spec fn view_artist_key_rel(pre: ViewArtistScreen, post: ViewArtistScreen, key: Key, r: Option<
    Message,
>) -> bool {
    &&& ({
                let pre = pre.tabbed_view;
                let post = post.tabbed_view;
                if exists|i: int| 0 <= i < pre.tabs@.len() && pre.tabs@[i].key == key {
                    &&& r is None
                    &&& post.tabs == pre.tabs
                    &&& exists|i: int|
                        {
                            &&& 0 <= i < pre.tabs@.len()
                            &&& pre.tabs@[i].key == key
                            &&& (forall|j: int| 0 <= j < i ==> pre.tabs@[j].key != key)
                            &&& post.active_tab == i
                        }
                } else if pre.active_tab < pre.tabs@.len() {
                    &&& TabbedView::frame_kept(pre, post)
                    &&& panel_key_rel(
                        pre.tabs@[pre.active_tab as int].component,
                        post.tabs@[pre.active_tab as int].component,
                        key,
                        r,
                    )
                } else {
                    post == pre && r is None
                }
            })
}

impl ViewArtistScreen {
    /// A frame update steps the active panel only.
    pub fn tick(&mut self) -> (r: Option<Message>)
        ensures
            view_artist_tick_rel(*old(self), *final(self), r),
    {
        self.tabbed_view.tick()
    }

    /// A digit key selects its tab; every other key goes to the active
    /// panel.
    pub fn handle_key_press(&mut self, key: Key) -> (r: Option<Message>)
        ensures
            view_artist_key_rel(*old(self), *final(self), key, r),
    {
        self.tabbed_view.handle_key_press(key)
    }
}

} // verus!
