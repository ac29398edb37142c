//! The dispatcher, the heart of the engine: each message maps to an effect
//! on the app, the history and the current screen, and possibly to an
//! action the surrounding program must perform against the outside world.
//! The surrounding program drains messages to a fixed point each frame,
//! feeding every action's outcome back through the resolvers here.
use crate::app::App;
use crate::cli::Command;
use crate::error::{
    handle_error,
    is_error_transition,
    not_set_message_of,
    throw_no_album_error,
    throw_no_artist_error,
    throw_no_device_error,
    throw_no_now_playing_error,
    throw_no_search_results_error,
    throw_no_song_error,
    throw_no_spotify_client_error,
    AppError,
};
use crate::message::Message;
use crate::screens::home::HomeScreen;
use crate::screens::screen::{Screen, ScreenType};
use crate::spotify::album::Album;
use crate::spotify::artist::Artist;
use crate::spotify::client::{Credentials, SpotifyClient};
use crate::spotify::device::Device;
use crate::spotify::now_playing::NowPlaying;
use crate::spotify::player::{album_uri_of, SpotifyPlayer};
use crate::spotify::search_results::SearchResults;
use crate::spotify::song::Song;
use crate::spotify::{clone_name_ids, NameAndId};
use crate::strings::get_host_from_redirect_url;
use vstd::prelude::*;

verus! {

/// An action only the surrounding program can perform: an HTTP call, or
/// starting the login listener. The dispatcher decides which action follows
/// from a message; the program performs it and feeds the outcome back
/// through the matching resolver.
#[derive(Debug)]
pub enum ExternalAction {
    StartAuthServer { host: String },
    RunPlayer { command: crate::cli::PlayerCommand },
    ExchangeAuthCode { code: String },
    FetchNowPlaying,
    FetchDevices,
    FetchSong { id: String },
    FetchAlbum { id: String },
    FetchArtist { id: String },
    FetchSearch { path: String },
    PausePlay,
    ToggleShuffle,
    NextSong,
    PrevSong,
    TransferPlayback { id: String },
    PlayContext { context_uri: String, position: u64 },
    PlayTracks { offset: usize, songs: Vec<NameAndId> },
}

/// What one dispatch step yields: nothing, a follow-up message to dispatch
/// next, or an action for the surrounding program.
#[derive(Debug)]
pub enum Step {
    Quiet,
    Emit(Message),
    Act(ExternalAction),
}

/// The history and current screen after stepping back: the top of the back
/// stack becomes current, and the screen just left goes onto the forward
/// stack unless it is the exit prompt; an empty back stack changes nothing.
pub open spec fn go_prev_spec(prev: Seq<Screen>, next: Seq<Screen>, cur: Screen) -> (
    Seq<Screen>,
    Seq<Screen>,
    Screen,
) {
    if prev.len() == 0 {
        (prev, next, cur)
    } else {
        let target = prev.last();
        if cur.screen_type_of() != ScreenType::Exit {
            (prev.drop_last(), next.push(cur), target)
        } else {
            (prev.drop_last(), next, target)
        }
    }
}

/// The mirror step forward: the top of the forward stack becomes current,
/// and the screen just left goes onto the back stack unless it is the exit
/// prompt; an empty forward stack changes nothing.
pub open spec fn go_next_spec(prev: Seq<Screen>, next: Seq<Screen>, cur: Screen) -> (
    Seq<Screen>,
    Seq<Screen>,
    Screen,
) {
    if next.len() == 0 {
        (prev, next, cur)
    } else {
        let target = next.last();
        if cur.screen_type_of() != ScreenType::Exit {
            (prev.push(cur), next.drop_last(), target)
        } else {
            (prev, next.drop_last(), target)
        }
    }
}

/// Stepping to a new screen and then back restores the screen that was
/// current before, and the forward stack gains exactly one entry — the
/// screen just left — unless that screen was the exit prompt.
pub proof fn lemma_change_then_back(
    prev: Seq<Screen>,
    next: Seq<Screen>,
    cur: Screen,
    incoming: Screen,
)
    ensures
        ({
            let (p2, n2, c2) = go_prev_spec(prev.push(cur), next, incoming);
            &&& c2 == cur
            &&& p2 == prev
            &&& incoming.screen_type_of() != ScreenType::Exit ==> n2 == next.push(incoming)
            &&& incoming.screen_type_of() == ScreenType::Exit ==> n2 == next
        }),
{
    assert(prev.push(cur).drop_last() =~= prev);
}

/// Back then forward is a no-op on the current screen and both stack
/// lengths, provided neither the current screen nor the one behind it is
/// the exit prompt — the prompt is never recorded — and a back step was
/// possible at all while the forward stack was empty.
pub proof fn lemma_back_then_forward_restores(prev: Seq<Screen>, next: Seq<Screen>, cur: Screen)
    requires
        prev.len() > 0 ==> cur.screen_type_of() != ScreenType::Exit && prev.last().screen_type_of()
            != ScreenType::Exit,
        prev.len() == 0 ==> next.len() == 0,
    ensures
        ({
            let (p1, n1, c1) = go_prev_spec(prev, next, cur);
            let (p2, n2, c2) = go_next_spec(p1, n1, c1);
            &&& c2 == cur
            &&& p2.len() == prev.len()
            &&& n2.len() == next.len()
        }),
{
    if prev.len() > 0 {
        let (p1, n1, c1) = go_prev_spec(prev, next, cur);
        assert(n1.last() == cur);
        assert(n1.drop_last() =~= next);
    }
}

/// A back step on an empty back stack is a no-op: the current screen and
/// both stacks are unchanged.
pub proof fn lemma_back_on_empty_is_noop(prev: Seq<Screen>, next: Seq<Screen>, cur: Screen)
    requires
        prev.len() == 0,
    ensures
        go_prev_spec(prev, next, cur) == (prev, next, cur),
{
}

/// Everything of the app a pure history step leaves alone.
pub open spec fn app_kept_but_history(pre: App, post: App) -> bool {
    &&& post.is_running == pre.is_running
    &&& post.spotify_client == pre.spotify_client
    &&& post.default_key_press_enabled == pre.default_key_press_enabled
    &&& post.side_requests == pre.side_requests
}

/// Steps back through the history, as `go_prev_spec` says.
pub fn go_to_prev_screen(app: &mut App, screen: &mut Screen)
    ensures
        app_kept_but_history(*old(app), *final(app)),
        (final(app).history.prev@, final(app).history.next@, *final(screen)) == go_prev_spec(
            old(app).history.prev@,
            old(app).history.next@,
            *old(screen),
        ),
{
    let popped = app.history.prev.pop();
    match popped {
        Option::Some(last_screen) => {
            let mut outgoing = last_screen;
            core::mem::swap(screen, &mut outgoing);
            if outgoing.get_screen_type() != ScreenType::Exit {
                app.history.next.push(outgoing);
            }
        },
        Option::None => {},
    }
}

/// Steps forward through the history, as `go_next_spec` says.
pub fn go_to_next_screen(app: &mut App, screen: &mut Screen)
    ensures
        app_kept_but_history(*old(app), *final(app)),
        (final(app).history.prev@, final(app).history.next@, *final(screen)) == go_next_spec(
            old(app).history.prev@,
            old(app).history.next@,
            *old(screen),
        ),
{
    let popped = app.history.next.pop();
    match popped {
        Option::Some(next_screen) => {
            let mut outgoing = next_screen;
            core::mem::swap(screen, &mut outgoing);
            if outgoing.get_screen_type() != ScreenType::Exit {
                app.history.prev.push(outgoing);
            }
        },
        Option::None => {},
    }
}

/// Swaps in a new current screen: the outgoing screen always goes onto the
/// back stack. Arriving at the login link with a client starts the login
/// listener; arriving home under a one-shot player command stops the run
/// loop and hands the command over.
pub fn change_screen(app: &mut App, screen: &mut Screen, command: &Option<Command>, new_screen: Box<
    Screen,
>) -> (step: Step)
    ensures
        final(app).history.prev@ == old(app).history.prev@.push(*old(screen)),
        final(app).history.next == old(app).history.next,
        *final(screen) == *new_screen,
        final(app).spotify_client == old(app).spotify_client,
        final(app).default_key_press_enabled == old(app).default_key_press_enabled,
        final(app).side_requests == old(app).side_requests,
        ({
            let to_auth_link = old(app).spotify_client is Some && new_screen.screen_type_of()
                == ScreenType::ShowAuthLinkScreen;
            let one_shot = *command matches Some(c) && c.is_player_command_spec()
                && new_screen.screen_type_of() == ScreenType::Home;
            &&& final(app).is_running == (old(app).is_running && !one_shot)
            &&& if to_auth_link {
                step matches Step::Act(a) && a matches ExternalAction::StartAuthServer { .. }
            } else if one_shot {
                step matches Step::Act(a) && a matches ExternalAction::RunPlayer { .. }
            } else {
                step is Quiet
            }
        }),
{
    let mut incoming = *new_screen;
    core::mem::swap(screen, &mut incoming);
    app.history.prev.push(incoming);
    let mut step = Step::Quiet;
    match &app.spotify_client {
        Option::Some(spotify_client) => {
            if screen.get_screen_type() == ScreenType::ShowAuthLinkScreen {
                let redirect_uri = match &spotify_client.config.redirect_uri {
                    Option::Some(uri) => uri.clone(),
                    Option::None => String::new(),
                };
                let host = get_host_from_redirect_url(redirect_uri.as_str());
                step = Step::Act(ExternalAction::StartAuthServer { host });
            }
        },
        Option::None => {},
    }
    match command {
        Option::Some(c) => {
            if screen.get_screen_type() == ScreenType::Home && c.is_player_command() {
                app.is_running = false;
                match c {
                    Command::Player { player_command } => {
                        step = Step::Act(
                            ExternalAction::RunPlayer { command: player_command.clone() },
                        );
                    },
                    _ => {},
                }
            }
        },
        Option::None => {},
    }
    step
}

/// Maps one message to its effect on the app, the history and the current
/// screen, and to the action the surrounding program must perform, exactly
/// as the dispatch table says. A refresh against a screen that does not own
/// the asked-for entity, or without a logged-in client, yields exactly one
/// transition to an error screen and asks for nothing.
pub fn dispatch_message(
    app: &mut App,
    screen: &mut Screen,
    command: &Option<Command>,
    message: Message,
) -> (step: Step)
    requires
        message.wf(),
    ensures
        match message {
            Message::ChangeScreen { new_screen } => {
                &&& final(app).history.prev@ == old(app).history.prev@.push(*old(screen))
                &&& final(app).history.next == old(app).history.next
                &&& *final(screen) == *new_screen
                &&& final(app).spotify_client == old(app).spotify_client
                &&& final(app).default_key_press_enabled == old(app).default_key_press_enabled
                &&& final(app).side_requests == old(app).side_requests
                &&& ({
                    let to_auth_link = old(app).spotify_client is Some
                        && new_screen.screen_type_of() == ScreenType::ShowAuthLinkScreen;
                    let one_shot = *command matches Some(c) && c.is_player_command_spec()
                        && new_screen.screen_type_of() == ScreenType::Home;
                    &&& final(app).is_running == (old(app).is_running && !one_shot)
                    &&& if to_auth_link {
                        step matches Step::Act(a) && a
                            matches ExternalAction::StartAuthServer { .. }
                    } else if one_shot {
                        step matches Step::Act(a) && a matches ExternalAction::RunPlayer { .. }
                    } else {
                        step is Quiet
                    }
                })
            },
            Message::GoToPrevScreen => {
                &&& app_kept_but_history(*old(app), *final(app))
                &&& (final(app).history.prev@, final(app).history.next@, *final(screen))
                    == go_prev_spec(
                    old(app).history.prev@,
                    old(app).history.next@,
                    *old(screen),
                )
                &&& step is Quiet
            },
            Message::GoToNextScreen => {
                &&& app_kept_but_history(*old(app), *final(app))
                &&& (final(app).history.prev@, final(app).history.next@, *final(screen))
                    == go_next_spec(
                    old(app).history.prev@,
                    old(app).history.next@,
                    *old(screen),
                )
                &&& step is Quiet
            },
            Message::SetAuthCode { code } => {
                &&& *final(app) == *old(app)
                &&& *final(screen) == *old(screen)
                &&& match old(app).spotify_client {
                    Option::Some(_) => step matches Step::Act(a) && a
                        matches ExternalAction::ExchangeAuthCode { code: c } && c == code,
                    Option::None => step matches Step::Emit(m) && is_error_transition(
                        m,
                        "No `SpotifyClient` set on `App`."@,
                    ),
                }
            },
            Message::RefreshNowPlaying => {
                &&& *final(app) == *old(app)
                &&& *final(screen) == *old(screen)
                &&& match old(app).spotify_client {
                    Option::Some(_) => {
                        if old(screen).now_playing_of() is Some {
                            step matches Step::Act(a) && a is FetchNowPlaying
                        } else {
                            step matches Step::Emit(m) && is_error_transition(
                                m,
                                not_set_message_of("NowPlaying"@),
                            )
                        }
                    },
                    Option::None => step matches Step::Emit(m) && is_error_transition(
                        m,
                        "No `SpotifyClient` set on `App`."@,
                    ),
                }
            },
            Message::RefreshDevice => {
                &&& *final(app) == *old(app)
                &&& *final(screen) == *old(screen)
                &&& match old(app).spotify_client {
                    Option::Some(_) => {
                        if old(screen).device_of() is Some {
                            step matches Step::Act(a) && a is FetchDevices
                        } else {
                            step matches Step::Emit(m) && is_error_transition(
                                m,
                                not_set_message_of("Device"@),
                            )
                        }
                    },
                    Option::None => step matches Step::Emit(m) && is_error_transition(
                        m,
                        "No `SpotifyClient` set on `App`."@,
                    ),
                }
            },
            Message::RefreshSong => {
                &&& *final(app) == *old(app)
                &&& *final(screen) == *old(screen)
                &&& match old(app).spotify_client {
                    Option::Some(_) => {
                        if old(screen).song_of() is Some {
                            step matches Step::Act(a) && a matches ExternalAction::FetchSong { id }
                                && id@ == old(screen).song_of()->Some_0.id@
                        } else {
                            step matches Step::Emit(m) && is_error_transition(
                                m,
                                not_set_message_of("Song"@),
                            )
                        }
                    },
                    Option::None => step matches Step::Emit(m) && is_error_transition(
                        m,
                        "No `SpotifyClient` set on `App`."@,
                    ),
                }
            },
            Message::RefreshAlbum => {
                &&& *final(app) == *old(app)
                &&& *final(screen) == *old(screen)
                &&& match old(app).spotify_client {
                    Option::Some(_) => {
                        if old(screen).album_of() is Some {
                            step matches Step::Act(a) && a matches ExternalAction::FetchAlbum {
                                id,
                            } && id@ == old(screen).album_of()->Some_0.id@
                        } else {
                            step matches Step::Emit(m) && is_error_transition(
                                m,
                                not_set_message_of("Album"@),
                            )
                        }
                    },
                    Option::None => step matches Step::Emit(m) && is_error_transition(
                        m,
                        "No `SpotifyClient` set on `App`."@,
                    ),
                }
            },
            Message::RefreshArtist => {
                &&& *final(app) == *old(app)
                &&& *final(screen) == *old(screen)
                &&& match old(app).spotify_client {
                    Option::Some(_) => {
                        if old(screen).artist_of() is Some {
                            step matches Step::Act(a) && a matches ExternalAction::FetchArtist {
                                id,
                            } && id@ == old(screen).artist_of()->Some_0.id@
                        } else {
                            step matches Step::Emit(m) && is_error_transition(
                                m,
                                not_set_message_of("Artist"@),
                            )
                        }
                    },
                    Option::None => step matches Step::Emit(m) && is_error_transition(
                        m,
                        "No `SpotifyClient` set on `App`."@,
                    ),
                }
            },
            Message::RefreshSearchResults => {
                &&& *final(app) == *old(app)
                &&& *final(screen) == *old(screen)
                &&& match old(app).spotify_client {
                    Option::Some(_) => {
                        if old(screen).search_results_of() is Some {
                            step matches Step::Act(a) && a matches ExternalAction::FetchSearch {
                                path,
                            } && path@ == "search?type=artist,album,track,playlist&limit=50&q="@
                                + old(screen).search_results_of()->Some_0.query@
                        } else {
                            step matches Step::Emit(m) && is_error_transition(
                                m,
                                not_set_message_of("SearchResults"@),
                            )
                        }
                    },
                    Option::None => step matches Step::Emit(m) && is_error_transition(
                        m,
                        "No `SpotifyClient` set on `App`."@,
                    ),
                }
            },
            Message::PausePlay => {
                &&& *final(app) == *old(app)
                &&& *final(screen) == *old(screen)
                &&& match old(app).spotify_client {
                    Option::Some(_) => step matches Step::Act(a) && a is PausePlay,
                    Option::None => step matches Step::Emit(m) && is_error_transition(
                        m,
                        "No `SpotifyClient` set on `App`."@,
                    ),
                }
            },
            Message::Shuffle => {
                &&& *final(app) == *old(app)
                &&& *final(screen) == *old(screen)
                &&& match old(app).spotify_client {
                    Option::Some(_) => step matches Step::Act(a) && a is ToggleShuffle,
                    Option::None => step matches Step::Emit(m) && is_error_transition(
                        m,
                        "No `SpotifyClient` set on `App`."@,
                    ),
                }
            },
            Message::NextSong => {
                &&& *final(app) == *old(app)
                &&& *final(screen) == *old(screen)
                &&& match old(app).spotify_client {
                    Option::Some(_) => step matches Step::Act(a) && a is NextSong,
                    Option::None => step matches Step::Emit(m) && is_error_transition(
                        m,
                        "No `SpotifyClient` set on `App`."@,
                    ),
                }
            },
            Message::PrevSong => {
                &&& *final(app) == *old(app)
                &&& *final(screen) == *old(screen)
                &&& match old(app).spotify_client {
                    Option::Some(_) => step matches Step::Act(a) && a is PrevSong,
                    Option::None => step matches Step::Emit(m) && is_error_transition(
                        m,
                        "No `SpotifyClient` set on `App`."@,
                    ),
                }
            },
            Message::SetDevice { name, id } => {
                &&& *final(app) == *old(app)
                &&& match old(app).spotify_client {
                    Option::Some(_) => {
                        if old(screen).device_of() is Some {
                            &&& step matches Step::Act(a) && a
                                matches ExternalAction::TransferPlayback { id: did } && did@ == id@
                            &&& final(screen).device_of() matches Some(d)
                                && d.current_device_name matches Some(n) && n@ == name@
                                && d.available_devices@ == old(screen).device_of()->Some_0.available_devices@
                            &&& final(screen).screen_type_of() == old(screen).screen_type_of()
                        } else {
                            &&& *final(screen) == *old(screen)
                            &&& step matches Step::Emit(m) && is_error_transition(
                                m,
                                not_set_message_of("Device"@),
                            )
                        }
                    },
                    Option::None => *final(screen) == *old(screen) && (step matches Step::Emit(m)
                        && is_error_transition(m, "No `SpotifyClient` set on `App`."@)),
                }
            },
            Message::PlaySongOnAlbum { track_number, album_id } => {
                &&& *final(app) == *old(app)
                &&& *final(screen) == *old(screen)
                &&& match old(app).spotify_client {
                    Option::Some(_) => step matches Step::Act(a) && a
                        matches ExternalAction::PlayContext { context_uri, position }
                        && context_uri@ == album_uri_of(album_id@) && position == track_number - 1,
                    Option::None => step matches Step::Emit(m) && is_error_transition(
                        m,
                        "No `SpotifyClient` set on `App`."@,
                    ),
                }
            },
            Message::PlaySongs { offset, songs } => {
                &&& *final(app) == *old(app)
                &&& *final(screen) == *old(screen)
                &&& match old(app).spotify_client {
                    Option::Some(_) => step matches Step::Act(a) && a
                        matches ExternalAction::PlayTracks { offset: o, songs: ss } && o == offset
                        && ss@ == songs@,
                    Option::None => step matches Step::Emit(m) && is_error_transition(
                        m,
                        "No `SpotifyClient` set on `App`."@,
                    ),
                }
            },
        },
{
    match message {
        Message::ChangeScreen { new_screen } => change_screen(app, screen, command, new_screen),
        Message::GoToPrevScreen => {
            go_to_prev_screen(app, screen);
            Step::Quiet
        },
        Message::GoToNextScreen => {
            go_to_next_screen(app, screen);
            Step::Quiet
        },
        Message::SetAuthCode { code } => {
            if app.spotify_client.is_some() {
                Step::Act(ExternalAction::ExchangeAuthCode { code })
            } else {
                emit(throw_no_spotify_client_error())
            }
        },
        Message::RefreshNowPlaying => {
            if app.spotify_client.is_none() {
                return emit(throw_no_spotify_client_error());
            }
            match screen.get_now_playing() {
                Option::Some(_) => Step::Act(ExternalAction::FetchNowPlaying),
                Option::None => emit(throw_no_now_playing_error()),
            }
        },
        Message::RefreshDevice => {
            if app.spotify_client.is_none() {
                return emit(throw_no_spotify_client_error());
            }
            match screen.get_device() {
                Option::Some(_) => Step::Act(ExternalAction::FetchDevices),
                Option::None => emit(throw_no_device_error()),
            }
        },
        Message::RefreshSong => {
            if app.spotify_client.is_none() {
                return emit(throw_no_spotify_client_error());
            }
            match screen.get_song() {
                Option::Some(song) => Step::Act(
                    ExternalAction::FetchSong { id: song.id.clone() },
                ),
                Option::None => emit(throw_no_song_error()),
            }
        },
        Message::RefreshAlbum => {
            if app.spotify_client.is_none() {
                return emit(throw_no_spotify_client_error());
            }
            match screen.get_album() {
                Option::Some(album) => Step::Act(
                    ExternalAction::FetchAlbum { id: album.id.clone() },
                ),
                Option::None => emit(throw_no_album_error()),
            }
        },
        Message::RefreshArtist => {
            if app.spotify_client.is_none() {
                return emit(throw_no_spotify_client_error());
            }
            match screen.get_artist() {
                Option::Some(artist) => Step::Act(
                    ExternalAction::FetchArtist { id: artist.id.clone() },
                ),
                Option::None => emit(throw_no_artist_error()),
            }
        },
        Message::RefreshSearchResults => {
            if app.spotify_client.is_none() {
                return emit(throw_no_spotify_client_error());
            }
            match screen.get_search_results() {
                Option::Some(results) => Step::Act(
                    ExternalAction::FetchSearch { path: results.search_path() },
                ),
                Option::None => emit(throw_no_search_results_error()),
            }
        },
        Message::PausePlay => {
            if app.spotify_client.is_some() {
                Step::Act(ExternalAction::PausePlay)
            } else {
                emit(throw_no_spotify_client_error())
            }
        },
        Message::Shuffle => {
            if app.spotify_client.is_some() {
                Step::Act(ExternalAction::ToggleShuffle)
            } else {
                emit(throw_no_spotify_client_error())
            }
        },
        Message::NextSong => {
            if app.spotify_client.is_some() {
                Step::Act(ExternalAction::NextSong)
            } else {
                emit(throw_no_spotify_client_error())
            }
        },
        Message::PrevSong => {
            if app.spotify_client.is_some() {
                Step::Act(ExternalAction::PrevSong)
            } else {
                emit(throw_no_spotify_client_error())
            }
        },
        Message::SetDevice { name, id } => {
            if app.spotify_client.is_none() {
                return emit(throw_no_spotify_client_error());
            }
            match screen.get_device() {
                Option::Some(device) => {
                    let updated = Device {
                        available_devices: clone_name_ids(&device.available_devices),
                        current_device_name: Some(name),
                    };
                    let stored = screen.set_device(updated);
                    proof {
                        assert(stored);
                    }
                    Step::Act(ExternalAction::TransferPlayback { id })
                },
                Option::None => emit(throw_no_device_error()),
            }
        },
        Message::PlaySongOnAlbum { track_number, album_id } => {
            if app.spotify_client.is_none() {
                return emit(throw_no_spotify_client_error());
            }
            let player = SpotifyPlayer::new();
            let request = player.play_song_on_album_request(track_number, &album_id);
            Step::Act(ExternalAction::PlayContext { context_uri: request.0, position: request.1 })
        },
        Message::PlaySongs { offset, songs } => {
            if app.spotify_client.is_none() {
                return emit(throw_no_spotify_client_error());
            }
            Step::Act(ExternalAction::PlayTracks { offset, songs })
        },
    }
}

/// Lifts the error conversion's message into a dispatch step.
fn emit(m: Option<Message>) -> (step: Step)
    ensures
        match m {
            Option::Some(msg) => step matches Step::Emit(e) && e == msg,
            Option::None => step is Quiet,
        },
{
    match m {
        Option::Some(msg) => Step::Emit(msg),
        Option::None => Step::Quiet,
    }
}

/// Applies a fetched playing state to the current screen: stored through
/// the owning child when one exists, otherwise the missing-capability error.
/// A failed fetch becomes the error transition carrying its message.
pub fn resolve_fetch_now_playing(
    screen: &mut Screen,
    outcome: Result<(u16, String), AppError>,
) -> (r: Option<Message>)
    ensures
        final(screen).screen_type_of() == old(screen).screen_type_of(),
        match outcome {
            Result::Err(e) => r matches Some(m) && is_error_transition(m, e.message_view())
                && *final(screen) == *old(screen),
            Result::Ok(resp) => {
                &&& resp.0 == 204 ==> (r matches Some(m) && is_error_transition(
                    m,
                    "No device available"@,
                ) && *final(screen) == *old(screen))
                &&& (resp.0 != 204 && crate::json::json_parse_ok(resp.1@) && old(screen).now_playing_of() is Some ==> r is None && final(screen).now_playing_of() is Some)
                &&& (r is None ==> old(screen).now_playing_of() is Some && final(screen).now_playing_of() is Some)
                &&& (r matches Some(m) ==> (m matches Message::ChangeScreen { new_screen }
                    && *new_screen matches Screen::Error(_)) && *final(screen) == *old(screen))
            },
        },
{
    match outcome {
        Result::Err(e) => handle_error::<()>(Err(e)),
        Result::Ok((status, body)) => {
            match NowPlaying::from_player_response(status, body.as_str()) {
                Result::Ok(fresh) => {
                    if screen.set_now_playing(fresh) {
                        None
                    } else {
                        throw_no_now_playing_error()
                    }
                },
                Result::Err(e) => handle_error::<()>(Err(e)),
            }
        },
    }
}

/// Applies a fetched device table to the current screen, keeping the old
/// table on any status but success, as the refresh rule says.
pub fn resolve_fetch_devices(screen: &mut Screen, outcome: Result<(u16, String), AppError>) -> (r:
    Option<Message>)
    ensures
        final(screen).screen_type_of() == old(screen).screen_type_of(),
        match outcome {
            Result::Err(e) => r matches Some(m) && is_error_transition(m, e.message_view())
                && *final(screen) == *old(screen),
            Result::Ok(resp) => {
                &&& ((resp.0 != 200 || crate::json::json_parse_ok(resp.1@)) && old(screen).device_of() is Some ==> r is None && final(screen).device_of() is Some)
                &&& (r is None ==> old(screen).device_of() is Some && final(screen).device_of()
                    is Some)
                &&& (r matches Some(m) ==> (m matches Message::ChangeScreen { new_screen }
                    && *new_screen matches Screen::Error(_)) && *final(screen) == *old(screen))
            },
        },
{
    match outcome {
        Result::Err(e) => handle_error::<()>(Err(e)),
        Result::Ok((status, body)) => {
            match screen.get_device() {
                Option::Some(device) => {
                    match device.refreshed_from_response(status, body.as_str()) {
                        Result::Ok(fresh) => {
                            let stored = screen.set_device(fresh);
                            proof {
                                assert(stored);
                            }
                            None
                        },
                        Result::Err(e) => handle_error::<()>(Err(e)),
                    }
                },
                Option::None => throw_no_device_error(),
            }
        },
    }
}

/// Applies a fetched song to the current screen's owning child, keeping the
/// identity key the refresh was made for.
pub fn resolve_fetch_song(screen: &mut Screen, outcome: Result<(u16, String), AppError>) -> (r:
    Option<Message>)
    ensures
        final(screen).screen_type_of() == old(screen).screen_type_of(),
        match outcome {
            Result::Err(e) => r matches Some(m) && is_error_transition(m, e.message_view())
                && *final(screen) == *old(screen),
            Result::Ok(resp) => {
                &&& (crate::json::json_parse_ok(resp.1@) && old(screen).song_of() is Some ==> r
                    is None)
                &&& (r is None ==> old(screen).song_of() is Some && (final(screen).song_of()
                    matches Some(s) && s.id@ == old(screen).song_of()->Some_0.id@))
                &&& (r matches Some(m) ==> (m matches Message::ChangeScreen { new_screen }
                    && *new_screen matches Screen::Error(_)) && *final(screen) == *old(screen))
            },
        },
{
    match outcome {
        Result::Err(e) => handle_error::<()>(Err(e)),
        Result::Ok((_status, body)) => {
            match Song::from_track_response(body.as_str()) {
                Result::Ok(fresh) => {
                    let current_id = match screen.get_song() {
                        Option::Some(song) => song.id.clone(),
                        Option::None => {
                            return throw_no_song_error();
                        },
                    };
                    let merged = Song { id: current_id, ..fresh };
                    let stored = screen.set_song(merged);
                    proof {
                        assert(stored);
                    }
                    None
                },
                Result::Err(e) => handle_error::<()>(Err(e)),
            }
        },
    }
}

/// Applies a fetched album to the current screen's owning child, keeping
/// the identity key the refresh was made for.
pub fn resolve_fetch_album(screen: &mut Screen, outcome: Result<(u16, String), AppError>) -> (r:
    Option<Message>)
    ensures
        final(screen).screen_type_of() == old(screen).screen_type_of(),
        match outcome {
            Result::Err(e) => r matches Some(m) && is_error_transition(m, e.message_view())
                && *final(screen) == *old(screen),
            Result::Ok(resp) => {
                &&& (crate::json::json_parse_ok(resp.1@) && old(screen).album_of() is Some ==> r
                    is None)
                &&& (r is None ==> old(screen).album_of() is Some && (final(screen).album_of()
                    matches Some(a) && a.id@ == old(screen).album_of()->Some_0.id@))
                &&& (r matches Some(m) ==> (m matches Message::ChangeScreen { new_screen }
                    && *new_screen matches Screen::Error(_)) && *final(screen) == *old(screen))
            },
        },
{
    match outcome {
        Result::Err(e) => handle_error::<()>(Err(e)),
        Result::Ok((_status, body)) => {
            match Album::from_album_response(body.as_str()) {
                Result::Ok(fresh) => {
                    let current_id = match screen.get_album() {
                        Option::Some(album) => album.id.clone(),
                        Option::None => {
                            return throw_no_album_error();
                        },
                    };
                    let merged = Album { id: current_id, ..fresh };
                    let stored = screen.set_album(merged);
                    proof {
                        assert(stored);
                    }
                    None
                },
                Result::Err(e) => handle_error::<()>(Err(e)),
            }
        },
    }
}

/// The five response bodies an artist refresh gathers: the artist's own
/// data, its top tracks, albums and singles, and its public page.
pub struct ArtistResponses {
    pub artist_body: String,
    pub top_tracks_body: String,
    pub albums_body: String,
    pub singles_body: String,
    pub public_page_html: String,
}

/// Applies a fetched artist to the current screen's owning child, keeping
/// the identity key the refresh was made for.
pub fn resolve_fetch_artist(screen: &mut Screen, outcome: Result<ArtistResponses, AppError>) -> (r:
    Option<Message>)
    ensures
        final(screen).screen_type_of() == old(screen).screen_type_of(),
        match outcome {
            Result::Err(e) => r matches Some(m) && is_error_transition(m, e.message_view())
                && *final(screen) == *old(screen),
            Result::Ok(responses) => {
                &&& (crate::json::json_parse_ok(responses.artist_body@)
                    && crate::json::json_parse_ok(responses.top_tracks_body@)
                    && crate::json::json_parse_ok(responses.albums_body@)
                    && crate::json::json_parse_ok(responses.singles_body@) && old(screen).artist_of() is Some ==> r is None)
                &&& (r is None ==> old(screen).artist_of() is Some && (final(screen).artist_of()
                    matches Some(a) && a.id@ == old(screen).artist_of()->Some_0.id@))
                &&& (r matches Some(m) ==> (m matches Message::ChangeScreen { new_screen }
                    && *new_screen matches Screen::Error(_)) && *final(screen) == *old(screen))
            },
        },
{
    match outcome {
        Result::Err(e) => handle_error::<()>(Err(e)),
        Result::Ok(responses) => {
            let parsed = Artist::from_responses(
                responses.artist_body.as_str(),
                responses.top_tracks_body.as_str(),
                responses.albums_body.as_str(),
                responses.singles_body.as_str(),
                responses.public_page_html.as_str(),
            );
            match parsed {
                Result::Ok(fresh) => {
                    let current_id = match screen.get_artist() {
                        Option::Some(artist) => artist.id.clone(),
                        Option::None => {
                            return throw_no_artist_error();
                        },
                    };
                    let merged = Artist { id: current_id, ..fresh };
                    let stored = screen.set_artist(merged);
                    proof {
                        assert(stored);
                    }
                    None
                },
                Result::Err(e) => handle_error::<()>(Err(e)),
            }
        },
    }
}

/// Applies fetched search results to the current screen's owning child,
/// keeping the query they were fetched for.
pub fn resolve_fetch_search(screen: &mut Screen, outcome: Result<(u16, String), AppError>) -> (r:
    Option<Message>)
    ensures
        final(screen).screen_type_of() == old(screen).screen_type_of(),
        match outcome {
            Result::Err(e) => r matches Some(m) && is_error_transition(m, e.message_view())
                && *final(screen) == *old(screen),
            Result::Ok(resp) => {
                &&& (crate::json::json_parse_ok(resp.1@) && old(screen).search_results_of()
                    is Some ==> r is None)
                &&& (r is None ==> old(screen).search_results_of() is Some && (final(screen).search_results_of() matches Some(sr) && sr.query@ == old(screen).search_results_of()->Some_0.query@))
                &&& (r matches Some(m) ==> (m matches Message::ChangeScreen { new_screen }
                    && *new_screen matches Screen::Error(_)) && *final(screen) == *old(screen))
            },
        },
{
    match outcome {
        Result::Err(e) => handle_error::<()>(Err(e)),
        Result::Ok((_status, body)) => {
            match SearchResults::from_search_response(body.as_str()) {
                Result::Ok(fresh) => {
                    let current_query = match screen.get_search_results() {
                        Option::Some(results) => results.query.clone(),
                        Option::None => {
                            return throw_no_search_results_error();
                        },
                    };
                    let merged = SearchResults { query: current_query, ..fresh };
                    let stored = screen.set_search_results(merged);
                    proof {
                        assert(stored);
                    }
                    None
                },
                Result::Err(e) => handle_error::<()>(Err(e)),
            }
        },
    }
}

/// What finishing a code exchange asks of the surrounding program: the
/// follow-up message for the dispatch loop, the credentials to persist, if
/// any, and whether the login listener must be stopped.
pub struct AuthExchangeOutcome {
    pub follow: Option<Message>,
    pub save: Option<Credentials>,
    pub stop_server: bool,
}

/// Finishes an authorization-code exchange: the code is recorded, fresh
/// tokens become the credentials, and with credentials present — fresh or
/// already on disk — the listener stops and the screen goes home; otherwise
/// the exchange's failure, if any, lands on the error screen.
pub fn finish_auth_exchange(
    app: &mut App,
    code: String,
    exchange: Result<Option<String>, AppError>,
) -> (r: AuthExchangeOutcome)
    ensures
        final(app).is_running == old(app).is_running,
        final(app).history == old(app).history,
        final(app).default_key_press_enabled == old(app).default_key_press_enabled,
        final(app).side_requests == old(app).side_requests,
        match old(app).spotify_client {
            Option::None => {
                &&& *final(app) == *old(app)
                &&& r.follow matches Some(m) && is_error_transition(
                    m,
                    "No `SpotifyClient` set on `App`."@,
                )
                &&& r.save is None
                &&& !r.stop_server
            },
            Option::Some(_) => {
                &&& final(app).spotify_client matches Some(c) && c.code matches Some(stored)
                    && stored@ == code@
                &&& r.save == final(app).spotify_client->Some_0.credentials || r.save is None
                &&& (final(app).spotify_client->Some_0.credentials is Some ==> (r.stop_server
                    && (r.follow matches Some(m) && m matches Message::ChangeScreen { new_screen }
                    && *new_screen matches Screen::Home(_))))
                &&& (final(app).spotify_client->Some_0.credentials is None ==> (!r.stop_server
                    && match exchange {
                    Result::Err(e) => r.follow matches Some(m) && is_error_transition(
                        m,
                        e.message_view(),
                    ),
                    Result::Ok(_) => true,
                }))
                // a parsed exchange that carries both tokens makes them the
                // credentials, to be persisted, and sends the session home
                &&& (exchange matches Ok(exchanged) ==> exchanged matches Some(body) ==> (
                crate::json::json_parse_ok(body@) ==> (crate::json::json_string_field_of(
                    body@,
                    "access_token"@,
                ) matches Some(access) ==> (crate::json::json_string_field_of(
                    body@,
                    "refresh_token"@,
                ) matches Some(refresh) ==> ({
                    &&& final(app).spotify_client->Some_0.credentials matches Some(cr)
                        && cr.access_token@ == access && cr.refresh_token@ == refresh
                    &&& r.save == final(app).spotify_client->Some_0.credentials
                    &&& r.stop_server
                    &&& r.follow matches Some(m) && m matches Message::ChangeScreen { new_screen }
                        && *new_screen matches Screen::Home(_)
                })))))
            },
        },
{
    match &mut app.spotify_client {
        Option::Some(spotify_client) => {
            let mut save: Option<Credentials> = None;
            let mut exchange_result: Result<(), AppError> = Ok(());
            match &exchange {
                Result::Ok(Option::Some(body)) => {
                    match SpotifyClient::tokens_from_response(body.as_str()) {
                        Result::Ok((access_token, refresh_token)) => {
                            save = spotify_client.apply_code_exchange(
                                code,
                                access_token,
                                refresh_token,
                            );
                        },
                        Result::Err(e) => {
                            let _ = spotify_client.apply_code_exchange(code, None, None);
                            exchange_result = Err(e);
                        },
                    }
                },
                Result::Ok(Option::None) => {
                    // the exchange could not even be requested: the code is
                    // recorded, nothing else changes
                    let _ = spotify_client.apply_code_exchange(code, None, None);
                },
                Result::Err(e) => {
                    let _ = spotify_client.apply_code_exchange(code, None, None);
                    exchange_result = Err(AppError::from_string(e.message().clone()));
                },
            }
            if spotify_client.credentials.is_some() {
                let new_screen = Screen::Home(HomeScreen::default());
                AuthExchangeOutcome {
                    follow: Some(Message::ChangeScreen { new_screen: Box::new(new_screen) }),
                    save,
                    stop_server: true,
                }
            } else {
                AuthExchangeOutcome { follow: handle_error(exchange_result), save, stop_server: false }
            }
        },
        Option::None => AuthExchangeOutcome {
            follow: throw_no_spotify_client_error(),
            save: None,
            stop_server: false,
        },
    }
}

} // verus!
