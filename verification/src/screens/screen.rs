//! The screen union: a nominal tag for each screen kind, the shared
//! login gate, routing of frame updates and key presses, and the entity
//! accessors the dispatcher queries.
use crate::app::{App, Persisted};
use crate::config::clone_opt_string;
use crate::key::Key;
use crate::message::Message;
use crate::screens::create_config::CreateConfigFormScreen;
use crate::screens::devices::DevicesScreen;
use crate::screens::enter_code::EnterAuthCodeScreen;
use crate::screens::error::ErrorScreen;
use crate::screens::exit::ExitScreen;
use crate::screens::home::HomeScreen;
use crate::screens::library::LibraryScreen;
use crate::screens::now_playing::NowPlayingScreen;
use crate::screens::queue::QueueScreen;
use crate::screens::search::SearchScreen;
use crate::screens::show_link::ShowAuthLinkScreen;
use crate::screens::view_album::ViewAlbumScreen;
use crate::screens::view_artist::ViewArtistScreen;
use crate::spotify::client::{clone_opt_credentials, url_parse_ok, SpotifyClient};
use crate::spotify::device::Device;
use crate::spotify::now_playing::NowPlaying;
use crate::spotify::search_results::SearchResults;
use crate::spotify::song::Song;
use vstd::prelude::*;

verus! {

/// The stable tag of a screen kind: nominal, used for equality and
/// branching, never structural.
#[derive(Clone, Copy, Debug, PartialEq, Eq, Structural)]
pub enum ScreenType {
    Home,
    Exit,
    CreateConfigFormScreen,
    ShowAuthLinkScreen,
    EnterAuthCodeScreen,
    NowPlayingScreen,
    ViewArtistScreen,
    ViewAlbumScreen,
    QueueScreen,
    SearchScreen,
    LibraryScreen,
    ErrorScreen,
    DevicesScreen,
}

#[derive(Clone, Debug)]
pub enum Screen {
    Home(HomeScreen),
    Exit(ExitScreen),
    CreateConfig(CreateConfigFormScreen),
    ShowAuthLink(ShowAuthLinkScreen),
    EnterAuthCode(EnterAuthCodeScreen),
    NowPlaying(NowPlayingScreen),
    ViewArtist(ViewArtistScreen),
    ViewAlbum(ViewAlbumScreen),
    Queue(QueueScreen),
    Search(SearchScreen),
    Library(LibraryScreen),
    Error(ErrorScreen),
    Devices(DevicesScreen),
}

/// What the shared login gate answers when it decides the frame instead of
/// the screen's own logic: a client without credentials routes to the login
/// link; no client at all builds one from the files on disk, or routes to
/// the configuration form when that fails.
pub open spec fn auth_gate_rel(app_pre: App, app_post: App, files: Persisted, r: Option<
    Message,
>) -> bool {
    match app_pre.spotify_client {
        Option::Some(c) => {
            &&& c.credentials is None
            &&& app_post == app_pre
            &&& r matches Some(m) && m matches Message::ChangeScreen { new_screen } && *new_screen
                matches Screen::ShowAuthLink(s) && s.auth_url@ == c.auth_url@
        },
        Option::None => {
            if files.config.is_complete_spec() && url_parse_ok(
                "https://accounts.spotify.com/authorize"@,
            ) {
                &&& app_post == (App { spotify_client: app_post.spotify_client, ..app_pre })
                &&& app_post.spotify_client matches Some(c) && c.config == files.config
                    && c.credentials == files.credentials && c.code is None
                &&& r is None
            } else {
                &&& app_post == app_pre
                &&& r matches Some(m) && m matches Message::ChangeScreen { new_screen }
                    && *new_screen matches Screen::CreateConfig(s) && s.reflects_config(
                    files.config,
                )
            }
        },
    }
}

/// A frame update on a screen with no per-frame logic of its own: it only
/// makes sure a logged-in client exists, routing to the login link or the
/// configuration form where one cannot be built.
pub open spec fn gated_idle_tick_rel(
    app_pre: App,
    app_post: App,
    files: Persisted,
    r: Option<Message>,
) -> bool {
    match app_pre.spotify_client {
        Option::Some(c) => {
            if c.credentials is Some {
                app_post == app_pre && r is None
            } else {
                auth_gate_rel(app_pre, app_post, files, r)
            }
        },
        Option::None => auth_gate_rel(app_pre, app_post, files, r),
    }
}

/// Whether the login gate already decided this frame, or the screen's
/// own logic may run.
pub enum GateOutcome {
    Answered(Option<Message>),
    Pass,
}

/// The shared login gate: screens that need a logged-in client run it first
/// on every frame.
pub fn auth_gate(app: &mut App, files: &Persisted) -> (g: GateOutcome)
    ensures
        match g {
            GateOutcome::Answered(r) => auth_gate_rel(*old(app), *final(app), *files, r),
            GateOutcome::Pass => *final(app) == *old(app) && (old(app).spotify_client matches Some(
                c,
            ) && c.credentials is Some),
        },
{
    match &app.spotify_client {
        Option::Some(spotify_client) => {
            if spotify_client.credentials.is_some() {
                GateOutcome::Pass
            } else {
                let new_screen = ShowAuthLinkScreen::new(spotify_client.auth_url.clone());
                GateOutcome::Answered(
                    Some(
                        Message::ChangeScreen {
                            new_screen: Box::new(Screen::ShowAuthLink(new_screen)),
                        },
                    ),
                )
            }
        },
        Option::None => {
            let config = crate::config::Config {
                client_id: clone_opt_string(&files.config.client_id),
                client_secret: clone_opt_string(&files.config.client_secret),
                redirect_uri: clone_opt_string(&files.config.redirect_uri),
                scope: clone_opt_string(&files.config.scope),
            };
            let built = SpotifyClient::new(config, clone_opt_credentials(&files.credentials));
            match built {
                Result::Ok(spotify_client) => {
                    app.spotify_client = Some(spotify_client);
                    GateOutcome::Answered(None)
                },
                Result::Err(_) => {
                    let new_screen = CreateConfigFormScreen::new(&files.config);
                    GateOutcome::Answered(
                        Some(
                            Message::ChangeScreen {
                                new_screen: Box::new(Screen::CreateConfig(new_screen)),
                            },
                        ),
                    )
                },
            }
        },
    }
}

/// How one frame update steps a screen, each kind by its own relation.
pub open spec fn screen_tick_rel(
    pre: Screen,
    post: Screen,
    app_pre: App,
    app_post: App,
    files: Persisted,
    r: Option<Message>,
) -> bool {
            match (pre, post) {
                (Screen::Home(a), Screen::Home(b)) => a == b && gated_idle_tick_rel(
                    app_pre,
                    app_post,
                    files,
                    r,
                ),
                (Screen::Queue(a), Screen::Queue(b)) => a == b && gated_idle_tick_rel(
                    app_pre,
                    app_post,
                    files,
                    r,
                ),
                (Screen::Library(a), Screen::Library(b)) => a == b && gated_idle_tick_rel(
                    app_pre,
                    app_post,
                    files,
                    r,
                ),
                (Screen::Exit(a), Screen::Exit(b)) => a == b && app_post == app_pre && r
                    is None,
                (Screen::Error(a), Screen::Error(b)) => a == b && app_post == app_pre && r
                    is None,
                (Screen::ShowAuthLink(a), Screen::ShowAuthLink(b)) => a == b && app_post
                    == app_pre && r is None,
                (Screen::NowPlaying(a), Screen::NowPlaying(b)) => app_post == app_pre
                    && crate::screens::now_playing::now_playing_tick_rel(a, b, r),
                (Screen::ViewAlbum(a), Screen::ViewAlbum(b)) => app_post == app_pre
                    && crate::screens::view_album::view_album_tick_rel(a, b, r),
                (Screen::ViewArtist(a), Screen::ViewArtist(b)) => app_post == app_pre
                    && crate::screens::view_artist::view_artist_tick_rel(a, b, r),
                (Screen::CreateConfig(a), Screen::CreateConfig(b)) => crate::screens::create_config::create_config_tick_rel(
                    a,
                    b,
                    app_pre,
                    app_post,
                    r,
                ),
                (Screen::EnterAuthCode(a), Screen::EnterAuthCode(b)) => crate::screens::enter_code::enter_code_tick_rel(
                    a,
                    b,
                    app_pre,
                    app_post,
                    r,
                ),
                (Screen::Search(a), Screen::Search(b)) => app_post == app_pre
                    && crate::screens::search::search_tick_rel(a, b, r),
                (Screen::Devices(a), Screen::Devices(b)) => crate::screens::devices::devices_tick_rel(
                    a,
                    b,
                    app_pre,
                    app_post,
                    files,
                    r,
                ),
                _ => false,
            }
}

/// Whether the global default handler claims a key: history navigation on
/// H and L, the exit prompt on escape.
pub open spec fn default_key_claims(key: Key) -> bool {
    match key {
        Key::Char(c) => c == 'H' || c == 'L',
        Key::Esc => true,
        _ => false,
    }
}

/// How one key press steps a screen, each kind by its own relation, once
/// the global bindings have declined the key.
pub open spec fn screen_key_rel(
    pre: Screen,
    post: Screen,
    app_pre: App,
    app_post: App,
    key: Key,
    r: Option<Message>,
) -> bool {
            match (pre, post) {
                (Screen::Home(a), Screen::Home(b)) => app_post == app_pre
                    && crate::screens::home::home_key_rel(a, b, key, r),
                (Screen::Exit(a), Screen::Exit(b)) => a == b
                    && crate::screens::exit::exit_key_rel(app_pre, app_post, key, r),
                (Screen::Error(a), Screen::Error(b)) => a == b
                    && crate::screens::error::error_key_rel(app_pre, app_post, key, r),
                (Screen::CreateConfig(a), Screen::CreateConfig(b)) => crate::screens::create_config::create_config_key_rel(
                    a,
                    b,
                    app_pre,
                    app_post,
                    key,
                    r,
                ),
                (Screen::ShowAuthLink(a), Screen::ShowAuthLink(b)) => crate::screens::show_link::show_link_key_rel(
                    a,
                    b,
                    app_pre,
                    app_post,
                    key,
                    r,
                ),
                (Screen::EnterAuthCode(a), Screen::EnterAuthCode(b)) => app_post == app_pre
                    && crate::screens::enter_code::enter_code_key_rel(a, b, key, r),
                (Screen::NowPlaying(a), Screen::NowPlaying(b)) => app_post == app_pre && a
                    == b && crate::screens::now_playing::now_playing_key_rel(a, b, key, r),
                (Screen::ViewArtist(a), Screen::ViewArtist(b)) => app_post == app_pre
                    && crate::screens::view_artist::view_artist_key_rel(a, b, key, r),
                (Screen::ViewAlbum(a), Screen::ViewAlbum(b)) => app_post == app_pre
                    && crate::screens::view_album::view_album_key_rel(a, b, key, r),
                (Screen::Queue(a), Screen::Queue(b)) => app_post == app_pre && a == b && r
                    is None,
                (Screen::Library(a), Screen::Library(b)) => app_post == app_pre && a == b && r
                    is None,
                (Screen::Search(a), Screen::Search(b)) => app_post == app_pre
                    && crate::screens::search::search_key_rel(a, b, key, r),
                (Screen::Devices(a), Screen::Devices(b)) => app_post == app_pre
                    && crate::screens::devices::devices_key_rel(a, b, key, r),
                _ => false,
            }
}

impl Screen {
    /// The nominal tag of this screen.
    pub open spec fn screen_type_of(self) -> ScreenType {
        match self {
            Screen::Home(_) => ScreenType::Home,
            Screen::Exit(_) => ScreenType::Exit,
            Screen::CreateConfig(_) => ScreenType::CreateConfigFormScreen,
            Screen::ShowAuthLink(_) => ScreenType::ShowAuthLinkScreen,
            Screen::EnterAuthCode(_) => ScreenType::EnterAuthCodeScreen,
            Screen::NowPlaying(_) => ScreenType::NowPlayingScreen,
            Screen::ViewArtist(_) => ScreenType::ViewArtistScreen,
            Screen::ViewAlbum(_) => ScreenType::ViewAlbumScreen,
            Screen::Queue(_) => ScreenType::QueueScreen,
            Screen::Search(_) => ScreenType::SearchScreen,
            Screen::Library(_) => ScreenType::LibraryScreen,
            Screen::Error(_) => ScreenType::ErrorScreen,
            Screen::Devices(_) => ScreenType::DevicesScreen,
        }
    }

    pub fn get_screen_type(&self) -> (r: ScreenType)
        ensures
            r == self.screen_type_of(),
    {
        match self {
            Screen::Home(_) => ScreenType::Home,
            Screen::Exit(_) => ScreenType::Exit,
            Screen::CreateConfig(_) => ScreenType::CreateConfigFormScreen,
            Screen::ShowAuthLink(_) => ScreenType::ShowAuthLinkScreen,
            Screen::EnterAuthCode(_) => ScreenType::EnterAuthCodeScreen,
            Screen::NowPlaying(_) => ScreenType::NowPlayingScreen,
            Screen::ViewArtist(_) => ScreenType::ViewArtistScreen,
            Screen::ViewAlbum(_) => ScreenType::ViewAlbumScreen,
            Screen::Queue(_) => ScreenType::QueueScreen,
            Screen::Search(_) => ScreenType::SearchScreen,
            Screen::Library(_) => ScreenType::LibraryScreen,
            Screen::Error(_) => ScreenType::ErrorScreen,
            Screen::Devices(_) => ScreenType::DevicesScreen,
        }
    }

    /// Whether the global key bindings run before this screen's own: only
    /// the exit prompt suppresses them, so its confirmation keys are its
    /// own.
    pub open spec fn default_key_press_enabled_spec(self) -> bool {
        !(self is Exit)
    }

    pub fn get_default_key_press_enabled(&self) -> (r: bool)
        ensures
            r == self.default_key_press_enabled_spec(),
    {
        match self {
            Screen::Exit(_) => false,
            _ => true,
        }
    }

    /// One frame update, routed to the screen's own logic: each screen kind
    /// steps by its own relation. A frame update never stops the run loop
    /// and never touches the history.
    pub fn tick(&mut self, app: &mut App, files: &Persisted) -> (r: Option<Message>)
        ensures
            final(self).screen_type_of() == old(self).screen_type_of(),
            final(app).is_running == old(app).is_running,
            final(app).history == old(app).history,
            final(app).side_requests == old(app).side_requests,
            r matches Some(m) ==> m.wf(),
            screen_tick_rel(*old(self), *final(self), *old(app), *final(app), *files, r),
    {
        match self {
            Screen::Home(s) => s.tick(app, files),
            Screen::Exit(s) => s.tick(),
            Screen::CreateConfig(s) => s.tick(app),
            Screen::ShowAuthLink(s) => s.tick(),
            Screen::EnterAuthCode(s) => s.tick(app),
            Screen::NowPlaying(s) => s.tick(),
            Screen::ViewArtist(s) => s.tick(),
            Screen::ViewAlbum(s) => s.tick(),
            Screen::Queue(s) => s.tick(app, files),
            Screen::Search(s) => s.tick(app),
            Screen::Library(s) => s.tick(app, files),
            Screen::Error(s) => s.tick(),
            Screen::Devices(s) => s.tick(app, files),
        }
    }

    /// One key press, routed to the screen's own handler: each screen kind
    /// answers by its own relation. A key press never touches the history;
    /// only the exit and error prompts may stop the run loop.
    pub fn handle_key_press(&mut self, app: &mut App, key: Key) -> (r: Option<Message>)
        ensures
            final(self).screen_type_of() == old(self).screen_type_of(),
            final(app).history == old(app).history,
            old(self).screen_type_of() != ScreenType::Exit && old(self).screen_type_of()
                != ScreenType::ErrorScreen ==> final(app).is_running == old(app).is_running,
            r matches Some(m) ==> m.wf(),
            screen_key_rel(*old(self), *final(self), *old(app), *final(app), key, r),
    {
        match self {
            Screen::Home(s) => s.handle_key_press(key),
            Screen::Exit(s) => s.handle_key_press(app, key),
            Screen::CreateConfig(s) => s.handle_key_press(app, key),
            Screen::ShowAuthLink(s) => s.handle_key_press(app, key),
            Screen::EnterAuthCode(s) => s.handle_key_press(key),
            Screen::NowPlaying(s) => s.handle_key_press(key),
            Screen::ViewArtist(s) => s.handle_key_press(key),
            Screen::ViewAlbum(s) => s.handle_key_press(key),
            Screen::Queue(s) => s.handle_key_press(key),
            Screen::Search(s) => s.handle_key_press(key),
            Screen::Library(s) => s.handle_key_press(key),
            Screen::Error(s) => s.handle_key_press(app, key),
            Screen::Devices(s) => s.handle_key_press(key),
        }
    }

    /// The event step for one polled key press: while this screen leaves
    /// the global bindings enabled, they get the key first and their answer
    /// short-circuits the screen's own handler; otherwise, or when they
    /// decline, the screen's own handler runs.
    pub fn handle_event(&mut self, app: &mut App, key: Key) -> (r: Option<Message>)
        ensures
            final(self).screen_type_of() == old(self).screen_type_of(),
            final(app).history == old(app).history,
            old(self).default_key_press_enabled_spec() && old(app).default_key_press_enabled ==> {
                match key {
                    Key::Char(c) => {
                        if c == 'H' {
                            &&& r == Some(Message::GoToPrevScreen)
                            &&& *final(self) == *old(self)
                            &&& *final(app) == *old(app)
                        } else if c == 'L' {
                            &&& r == Some(Message::GoToNextScreen)
                            &&& *final(self) == *old(self)
                            &&& *final(app) == *old(app)
                        } else {
                            true
                        }
                    },
                    Key::Esc => {
                        &&& (r matches Some(m) && m matches Message::ChangeScreen { new_screen }
                            && *new_screen matches Screen::Exit(_))
                        &&& *final(self) == *old(self)
                        &&& *final(app) == *old(app)
                    },
                    _ => true,
                }
            },
            old(self).screen_type_of() != ScreenType::Exit && old(self).screen_type_of()
                != ScreenType::ErrorScreen ==> final(app).is_running == old(app).is_running,
            r matches Some(m) ==> m.wf(),
            !(old(self).default_key_press_enabled_spec() && old(app).default_key_press_enabled
                && default_key_claims(key)) ==> screen_key_rel(
                *old(self),
                *final(self),
                *old(app),
                *final(app),
                key,
                r,
            ),
    {
        if self.get_default_key_press_enabled() {
            let default_reply = app.handle_default_key_press(key);
            if let Option::Some(message) = default_reply {
                return Some(message);
            }
        }
        self.handle_key_press(app, key)
    }

    /// The playing state the current screen owns, reached through its
    /// active children.
    pub open spec fn now_playing_of(self) -> Option<NowPlaying> {
        match self {
            Screen::NowPlaying(s) => Some(s.now_playing),
            Screen::ViewAlbum(s) => Some(s.now_playing),
            Screen::ViewArtist(s) => match s.tabbed_view.active_panel_of() {
                Option::Some(p) => p.now_playing_of(),
                Option::None => None,
            },
            _ => None,
        }
    }

    pub fn get_now_playing(&self) -> (r: Option<&NowPlaying>)
        ensures
            match r {
                Option::Some(np) => self.now_playing_of() == Some(*np),
                Option::None => self.now_playing_of() is None,
            },
    {
        match self {
            Screen::NowPlaying(s) => Some(&s.now_playing),
            Screen::ViewAlbum(s) => Some(&s.now_playing),
            Screen::ViewArtist(s) => s.tabbed_view.get_now_playing(),
            _ => None,
        }
    }

    /// Hands a freshly fetched playing state to whichever child owns one;
    /// answers whether any child took it.
    pub fn set_now_playing(&mut self, np: NowPlaying) -> (ok: bool)
        ensures
            ok == (old(self).now_playing_of() is Some),
            ok ==> final(self).now_playing_of() == Some(np),
            !ok ==> *final(self) == *old(self),
            final(self).screen_type_of() == old(self).screen_type_of(),
    {
        match self {
            Screen::NowPlaying(s) => {
                s.now_playing = np;
                true
            },
            Screen::ViewAlbum(s) => {
                s.now_playing = np;
                true
            },
            Screen::ViewArtist(s) => s.tabbed_view.set_now_playing(np),
            _ => false,
        }
    }

    /// The device table the current screen owns.
    pub open spec fn device_of(self) -> Option<Device> {
        match self {
            Screen::Devices(s) => Some(s.device),
            _ => None,
        }
    }

    pub fn get_device(&self) -> (r: Option<&Device>)
        ensures
            match r {
                Option::Some(d) => self.device_of() == Some(*d),
                Option::None => self.device_of() is None,
            },
    {
        match self {
            Screen::Devices(s) => Some(&s.device),
            _ => None,
        }
    }

    pub fn set_device(&mut self, device: Device) -> (ok: bool)
        ensures
            ok == (old(self).device_of() is Some),
            ok ==> final(self).device_of() == Some(device),
            !ok ==> *final(self) == *old(self),
            final(self).screen_type_of() == old(self).screen_type_of(),
    {
        match self {
            Screen::Devices(s) => {
                s.device = device;
                true
            },
            _ => false,
        }
    }

    /// The song the current screen owns, reached through its active
    /// children.
    pub open spec fn song_of(self) -> Option<Song> {
        match self {
            Screen::NowPlaying(s) => Some(s.song),
            Screen::ViewAlbum(s) => Some(s.info_window.song),
            Screen::ViewArtist(s) => match s.tabbed_view.active_panel_of() {
                Option::Some(p) => p.song_of(),
                Option::None => None,
            },
            _ => None,
        }
    }

    pub fn get_song(&self) -> (r: Option<&Song>)
        ensures
            match r {
                Option::Some(s) => self.song_of() == Some(*s),
                Option::None => self.song_of() is None,
            },
    {
        match self {
            Screen::NowPlaying(s) => Some(&s.song),
            Screen::ViewAlbum(s) => Some(&s.info_window.song),
            Screen::ViewArtist(s) => s.tabbed_view.get_song(),
            _ => None,
        }
    }

    pub fn set_song(&mut self, song: Song) -> (ok: bool)
        ensures
            ok == (old(self).song_of() is Some),
            ok ==> final(self).song_of() == Some(song),
            !ok ==> *final(self) == *old(self),
            final(self).screen_type_of() == old(self).screen_type_of(),
    {
        match self {
            Screen::NowPlaying(s) => {
                s.song = song;
                true
            },
            Screen::ViewAlbum(s) => {
                s.info_window.song = song;
                true
            },
            Screen::ViewArtist(s) => s.tabbed_view.set_song(song),
            _ => false,
        }
    }

    /// The album the current screen owns, reached through its active
    /// children.
    pub open spec fn album_of(self) -> Option<crate::spotify::album::Album> {
        match self {
            Screen::ViewAlbum(s) => Some(s.song_list.album),
            Screen::ViewArtist(s) => match s.tabbed_view.active_panel_of() {
                Option::Some(p) => p.album_of(),
                Option::None => None,
            },
            _ => None,
        }
    }

    pub fn get_album(&self) -> (r: Option<&crate::spotify::album::Album>)
        ensures
            match r {
                Option::Some(a) => self.album_of() == Some(*a),
                Option::None => self.album_of() is None,
            },
    {
        match self {
            Screen::ViewAlbum(s) => Some(&s.song_list.album),
            Screen::ViewArtist(s) => s.tabbed_view.get_album(),
            _ => None,
        }
    }

    pub fn set_album(&mut self, album: crate::spotify::album::Album) -> (ok: bool)
        ensures
            ok == (old(self).album_of() is Some),
            ok ==> final(self).album_of() == Some(album),
            !ok ==> *final(self) == *old(self),
            final(self).screen_type_of() == old(self).screen_type_of(),
    {
        match self {
            Screen::ViewAlbum(s) => {
                s.song_list.album = album;
                true
            },
            Screen::ViewArtist(s) => s.tabbed_view.set_album(album),
            _ => false,
        }
    }

    /// The artist the current screen owns, reached through its active
    /// children.
    pub open spec fn artist_of(self) -> Option<crate::spotify::artist::Artist> {
        match self {
            Screen::ViewArtist(s) => match s.tabbed_view.active_panel_of() {
                Option::Some(p) => p.artist_of(),
                Option::None => None,
            },
            _ => None,
        }
    }

    pub fn get_artist(&self) -> (r: Option<&crate::spotify::artist::Artist>)
        ensures
            match r {
                Option::Some(a) => self.artist_of() == Some(*a),
                Option::None => self.artist_of() is None,
            },
    {
        match self {
            Screen::ViewArtist(s) => s.tabbed_view.get_artist(),
            _ => None,
        }
    }

    pub fn set_artist(&mut self, artist: crate::spotify::artist::Artist) -> (ok: bool)
        ensures
            ok == (old(self).artist_of() is Some),
            ok ==> final(self).artist_of() == Some(artist),
            !ok ==> *final(self) == *old(self),
            final(self).screen_type_of() == old(self).screen_type_of(),
    {
        match self {
            Screen::ViewArtist(s) => s.tabbed_view.set_artist(artist),
            _ => false,
        }
    }

    /// The search results the current screen owns.
    pub open spec fn search_results_of(self) -> Option<SearchResults> {
        match self {
            Screen::Search(s) => Some(s.search_results),
            _ => None,
        }
    }

    pub fn get_search_results(&self) -> (r: Option<&SearchResults>)
        ensures
            match r {
                Option::Some(sr) => self.search_results_of() == Some(*sr),
                Option::None => self.search_results_of() is None,
            },
    {
        match self {
            Screen::Search(s) => Some(&s.search_results),
            _ => None,
        }
    }

    pub fn set_search_results(&mut self, results: SearchResults) -> (ok: bool)
        ensures
            ok == (old(self).search_results_of() is Some),
            ok ==> final(self).search_results_of() == Some(results),
            !ok ==> *final(self) == *old(self),
            final(self).screen_type_of() == old(self).screen_type_of(),
    {
        match self {
            Screen::Search(s) => {
                s.search_results = results;
                true
            },
            _ => false,
        }
    }
}

} // verus!
