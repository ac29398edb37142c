//! The one-shot command surface: the parsed command line as plain values,
//! and what each command does to the screen and the history.
use crate::app::App;
use crate::screens::devices::DevicesScreen;
use crate::screens::library::LibraryScreen;
use crate::screens::now_playing::NowPlayingScreen;
use crate::screens::queue::QueueScreen;
use crate::screens::screen::Screen;
use crate::screens::search::SearchScreen;
use crate::screens::view_album::ViewAlbumScreen;
use crate::screens::view_artist::ViewArtistScreen;
use vstd::prelude::*;

verus! {

/// The parsed command line: at most one subcommand.
#[derive(Clone, Debug)]
pub struct Args {
    pub command: Option<Command>,
}

/// A playback action to run once and exit.
#[derive(Clone, Debug)]
pub enum PlayerCommand {
    PausePlay,
    NextSong,
    PreviousSong,
    Shuffle,
    Devices,
    SetDevice { id: String },
}

/// Which view of the playing song to open.
#[derive(Clone, Copy, Debug)]
pub enum ViewCommand {
    Artist,
    Album,
}

/// A subcommand: either a one-shot player action, or the screen to start
/// the interactive session on.
#[derive(Clone, Debug)]
pub enum Command {
    Player { player_command: PlayerCommand },
    NowPlaying,
    View { view_command: ViewCommand },
    Search,
    Queue,
    Library,
    Devices,
}

impl Command {
    /// Whether this command runs one playback action and exits instead of
    /// opening a screen.
    pub open spec fn is_player_command_spec(self) -> bool {
        self is Player
    }

    pub fn is_player_command(&self) -> (r: bool)
        ensures
            r == self.is_player_command_spec(),
    {
        match self {
            Command::Player { .. } => true,
            _ => false,
        }
    }

    /// What a screen-opening command does: the current screen moves onto the
    /// back stack and the commanded screen takes its place; a player command
    /// instead leaves screen and history alone, to be run against the
    /// client by the surrounding program.
    pub fn handle_command(&self, app: &mut App, current_screen: &mut Screen)
        ensures
            self.is_player_command_spec() ==> *final(current_screen) == *old(current_screen)
                && *final(app) == *old(app),
            !self.is_player_command_spec() ==> {
                &&& final(app).history.prev@ == old(app).history.prev@.push(*old(current_screen))
                &&& final(app).history.next == old(app).history.next
                &&& final(app).is_running == old(app).is_running
                &&& final(app).spotify_client == old(app).spotify_client
                &&& final(app).default_key_press_enabled == old(app).default_key_press_enabled
                &&& final(app).side_requests == old(app).side_requests
                &&& match self {
                    Command::NowPlaying => *final(current_screen) matches Screen::NowPlaying(_),
                    Command::View { view_command } => match view_command {
                        ViewCommand::Album => *final(current_screen) matches Screen::ViewAlbum(_),
                        ViewCommand::Artist => *final(current_screen) matches Screen::ViewArtist(
                            _,
                        ),
                    },
                    Command::Queue => *final(current_screen) matches Screen::Queue(_),
                    Command::Search => *final(current_screen) matches Screen::Search(_),
                    Command::Library => *final(current_screen) matches Screen::Library(_),
                    Command::Devices => *final(current_screen) matches Screen::Devices(_),
                    _ => false,
                }
            },
    {
        match self {
            Command::Player { .. } => {},
            Command::NowPlaying => {
                let mut incoming = Screen::NowPlaying(NowPlayingScreen::default());
                core::mem::swap(current_screen, &mut incoming);
                app.history.prev.push(incoming);
            },
            Command::View { view_command } => {
                let mut incoming = match view_command {
                    ViewCommand::Album => Screen::ViewAlbum(ViewAlbumScreen::default()),
                    ViewCommand::Artist => Screen::ViewArtist(ViewArtistScreen::default()),
                };
                core::mem::swap(current_screen, &mut incoming);
                app.history.prev.push(incoming);
            },
            Command::Queue => {
                let mut incoming = Screen::Queue(QueueScreen::default());
                core::mem::swap(current_screen, &mut incoming);
                app.history.prev.push(incoming);
            },
            Command::Search => {
                let mut incoming = Screen::Search(SearchScreen::default());
                core::mem::swap(current_screen, &mut incoming);
                app.history.prev.push(incoming);
            },
            Command::Library => {
                let mut incoming = Screen::Library(LibraryScreen::default());
                core::mem::swap(current_screen, &mut incoming);
                app.history.prev.push(incoming);
            },
            Command::Devices => {
                let mut incoming = Screen::Devices(DevicesScreen::default());
                core::mem::swap(current_screen, &mut incoming);
                app.history.prev.push(incoming);
            },
        }
    }
}

} // verus!
