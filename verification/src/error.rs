//! The error value every fallible action funnels into: a descriptive
//! message, later shown on the error screen, and the uniform conversions
//! from failed results to error-screen transitions.
use crate::message::Message;
use crate::screens::error::ErrorScreen;
use crate::screens::screen::Screen;
use vstd::prelude::*;
use vstd::string::StringExecFns;

verus! {

#[derive(Clone, Debug)]
pub struct AppError {
    message: String,
}

pub type AppResult<T> = Result<T, AppError>;

impl AppError {
    pub closed spec fn message_view(self) -> Seq<char> {
        self.message@
    }

    pub fn new(message: &str) -> (r: AppError)
        ensures
            r.message_view() == message@,
    {
        AppError { message: message.to_owned() }
    }

    pub fn from_string(message: String) -> (r: AppError)
        ensures
            r.message_view() == message@,
    {
        AppError { message }
    }

    pub fn message(&self) -> (r: &String)
        ensures
            r@ == self.message_view(),
    {
        &self.message
    }
}

/// Whether a message is the transition to an error screen carrying the
/// given description.
pub open spec fn is_error_transition(m: Message, description: Seq<char>) -> bool {
    &&& m matches Message::ChangeScreen { new_screen }
    &&& *new_screen matches Screen::Error(s) && s.message_view() == Some(description)
}

/// The uniform conversion every fallible action's result flows through: a
/// failure becomes the transition to an error screen carrying its message,
/// a success becomes no message at all.
pub fn handle_error<T>(result: Result<T, AppError>) -> (r: Option<Message>)
    ensures
        match result {
            Result::Ok(_) => r is None,
            Result::Err(e) => r matches Some(m) && is_error_transition(m, e.message_view()),
        },
{
    match result {
        Result::Ok(_) => None,
        Result::Err(error) => {
            let new_screen = ErrorScreen::from_string(error.message().clone());
            Some(Message::ChangeScreen { new_screen: Box::new(Screen::Error(new_screen)) })
        },
    }
}

/// The description used when the current screen does not own the entity a
/// refresh asks for.
pub open spec fn not_set_message_of(entity: Seq<char>) -> Seq<char> {
    "No `"@ + entity + "` set on current screen."@
}

pub fn not_set_on_screen_message(struct_name: &str) -> (r: String)
    ensures
        r@ == not_set_message_of(struct_name@),
{
    let mut s = "No `".to_owned();
    s.append(struct_name);
    s.append("` set on current screen.");
    s
}

fn error_transition_message(description: String) -> (r: Option<Message>)
    ensures
        r matches Some(m) && is_error_transition(m, description@),
{
    let new_screen = ErrorScreen::from_string(description);
    Some(Message::ChangeScreen { new_screen: Box::new(Screen::Error(new_screen)) })
}

/// The transition taken when no logged-in client exists at all.
pub fn throw_no_spotify_client_error() -> (r: Option<Message>)
    ensures
        r matches Some(m) && is_error_transition(m, "No `SpotifyClient` set on `App`."@),
{
    error_transition_message("No `SpotifyClient` set on `App`.".to_owned())
}

/// The transition taken when the current screen owns no playing state.
pub fn throw_no_now_playing_error() -> (r: Option<Message>)
    ensures
        r matches Some(m) && is_error_transition(m, not_set_message_of("NowPlaying"@)),
{
    error_transition_message(not_set_on_screen_message("NowPlaying"))
}

/// The transition taken when the current screen owns no device table.
pub fn throw_no_device_error() -> (r: Option<Message>)
    ensures
        r matches Some(m) && is_error_transition(m, not_set_message_of("Device"@)),
{
    error_transition_message(not_set_on_screen_message("Device"))
}

/// The transition taken when the current screen owns no song.
pub fn throw_no_song_error() -> (r: Option<Message>)
    ensures
        r matches Some(m) && is_error_transition(m, not_set_message_of("Song"@)),
{
    error_transition_message(not_set_on_screen_message("Song"))
}

/// The transition taken when the current screen owns no album.
pub fn throw_no_album_error() -> (r: Option<Message>)
    ensures
        r matches Some(m) && is_error_transition(m, not_set_message_of("Album"@)),
{
    error_transition_message(not_set_on_screen_message("Album"))
}

/// The transition taken when the current screen owns no artist.
pub fn throw_no_artist_error() -> (r: Option<Message>)
    ensures
        r matches Some(m) && is_error_transition(m, not_set_message_of("Artist"@)),
{
    error_transition_message(not_set_on_screen_message("Artist"))
}

/// The transition taken when the current screen owns no search results.
pub fn throw_no_search_results_error() -> (r: Option<Message>)
    ensures
        r matches Some(m) && is_error_transition(m, not_set_message_of("SearchResults"@)),
{
    error_transition_message(not_set_on_screen_message("SearchResults"))
}

} // verus!
