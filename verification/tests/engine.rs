//! The dispatch engine: history navigation, the error funnel, and the
//! actions the dispatcher hands to the surrounding program.
use spotify_client_tui::app::App;
use spotify_client_tui::cli::{Command, PlayerCommand};
use spotify_client_tui::config::Config;
use spotify_client_tui::error::AppError;
use spotify_client_tui::handler::{
    dispatch_message, finish_auth_exchange, resolve_fetch_devices, resolve_fetch_now_playing,
    ExternalAction, Step,
};
use spotify_client_tui::message::Message;
use spotify_client_tui::screens::devices::DevicesScreen;
use spotify_client_tui::screens::exit::ExitScreen;
use spotify_client_tui::screens::home::HomeScreen;
use spotify_client_tui::screens::now_playing::NowPlayingScreen;
use spotify_client_tui::screens::queue::QueueScreen;
use spotify_client_tui::screens::screen::{Screen, ScreenType};
use spotify_client_tui::spotify::client::SpotifyClient;
use spotify_client_tui::spotify::device::Device;

fn complete_config() -> Config {
    Config {
        client_id: Some("abc".to_string()),
        client_secret: Some("shh".to_string()),
        redirect_uri: Some("http://localhost:8888/callback".to_string()),
        scope: Some("user-read-playback-state".to_string()),
    }
}

fn app_with_client() -> App {
    let mut app = App::new();
    let client = SpotifyClient::new(complete_config(), None).unwrap();
    app.spotify_client = Some(client);
    app
}

fn error_message_of(message: Message) -> String {
    match message {
        Message::ChangeScreen { new_screen } => match *new_screen {
            Screen::Error(error_screen) => error_screen.get_message().clone().unwrap(),
            other => panic!("expected an error screen, got {:?}", other.get_screen_type()),
        },
        other => panic!("expected a screen change, got {:?}", other),
    }
}

#[test]
fn change_screen_then_back_restores_prior_screen() {
    let mut app = app_with_client();
    let mut screen = Screen::Home(HomeScreen::default());
    let step = dispatch_message(
        &mut app,
        &mut screen,
        &None,
        Message::ChangeScreen { new_screen: Box::new(Screen::Queue(QueueScreen::default())) },
    );
    assert!(matches!(step, Step::Quiet));
    assert_eq!(screen.get_screen_type(), ScreenType::QueueScreen);
    assert_eq!(app.history.prev.len(), 1);

    let step = dispatch_message(&mut app, &mut screen, &None, Message::GoToPrevScreen);
    assert!(matches!(step, Step::Quiet));
    assert_eq!(screen.get_screen_type(), ScreenType::Home);
    assert_eq!(app.history.prev.len(), 0);
    // the screen just left gained exactly one forward entry
    assert_eq!(app.history.next.len(), 1);
}

#[test]
fn back_then_forward_is_a_no_op() {
    let mut app = app_with_client();
    let mut screen = Screen::Home(HomeScreen::default());
    app.history.prev.push(Screen::NowPlaying(NowPlayingScreen::default()));

    let _ = dispatch_message(&mut app, &mut screen, &None, Message::GoToPrevScreen);
    assert_eq!(screen.get_screen_type(), ScreenType::NowPlayingScreen);
    let _ = dispatch_message(&mut app, &mut screen, &None, Message::GoToNextScreen);
    assert_eq!(screen.get_screen_type(), ScreenType::Home);
    assert_eq!(app.history.prev.len(), 1);
    assert_eq!(app.history.next.len(), 0);
}

#[test]
fn back_on_empty_history_is_a_no_op() {
    let mut app = app_with_client();
    let mut screen = Screen::Queue(QueueScreen::default());
    let step = dispatch_message(&mut app, &mut screen, &None, Message::GoToPrevScreen);
    assert!(matches!(step, Step::Quiet));
    assert_eq!(screen.get_screen_type(), ScreenType::QueueScreen);
    assert_eq!(app.history.prev.len(), 0);
    assert_eq!(app.history.next.len(), 0);
}

#[test]
fn exit_prompt_is_never_recorded_into_history() {
    let mut app = app_with_client();
    let mut screen = Screen::Exit(ExitScreen::default());
    app.history.prev.push(Screen::Home(HomeScreen::default()));
    let _ = dispatch_message(&mut app, &mut screen, &None, Message::GoToPrevScreen);
    assert_eq!(screen.get_screen_type(), ScreenType::Home);
    // the exit prompt did not land on the forward stack
    assert_eq!(app.history.next.len(), 0);
}

#[test]
fn refresh_without_accessor_yields_exactly_one_error_transition() {
    let mut app = app_with_client();
    let mut screen = Screen::Queue(QueueScreen::default());
    let step = dispatch_message(&mut app, &mut screen, &None, Message::RefreshNowPlaying);
    match step {
        Step::Emit(message) => {
            assert_eq!(error_message_of(message), "No `NowPlaying` set on current screen.");
        }
        other => panic!("expected a single error transition, got {:?}", other),
    }
    assert_eq!(screen.get_screen_type(), ScreenType::QueueScreen);
}

#[test]
fn refresh_without_client_yields_the_no_client_error() {
    let mut app = App::new();
    let mut screen = Screen::NowPlaying(NowPlayingScreen::default());
    let step = dispatch_message(&mut app, &mut screen, &None, Message::RefreshNowPlaying);
    match step {
        Step::Emit(message) => {
            assert_eq!(error_message_of(message), "No `SpotifyClient` set on `App`.");
        }
        other => panic!("expected a single error transition, got {:?}", other),
    }
}

#[test]
fn refresh_with_accessor_asks_for_the_fetch() {
    let mut app = app_with_client();
    let mut screen = Screen::NowPlaying(NowPlayingScreen::default());
    let step = dispatch_message(&mut app, &mut screen, &None, Message::RefreshNowPlaying);
    assert!(matches!(step, Step::Act(ExternalAction::FetchNowPlaying)));
}

#[test]
fn play_song_on_album_uses_zero_based_offset_and_album_uri() {
    let mut app = app_with_client();
    let mut screen = Screen::NowPlaying(NowPlayingScreen::default());
    let step = dispatch_message(
        &mut app,
        &mut screen,
        &None,
        Message::PlaySongOnAlbum { track_number: 3, album_id: "X".to_string() },
    );
    match step {
        Step::Act(ExternalAction::PlayContext { context_uri, position }) => {
            assert_eq!(context_uri, "spotify:album:X");
            assert_eq!(position, 2);
        }
        other => panic!("expected a play action, got {:?}", other),
    }
}

#[test]
fn arriving_at_the_login_link_starts_the_listener() {
    let mut app = app_with_client();
    let mut screen = Screen::Home(HomeScreen::default());
    let link = spotify_client_tui::screens::show_link::ShowAuthLinkScreen::new(
        "https://example.test/auth".to_string(),
    );
    let step = dispatch_message(
        &mut app,
        &mut screen,
        &None,
        Message::ChangeScreen { new_screen: Box::new(Screen::ShowAuthLink(link)) },
    );
    match step {
        Step::Act(ExternalAction::StartAuthServer { host }) => {
            assert_eq!(host, "localhost:8888");
        }
        other => panic!("expected the listener to start, got {:?}", other),
    }
}

#[test]
fn arriving_home_under_a_player_command_stops_the_loop() {
    let mut app = app_with_client();
    let mut screen = Screen::Queue(QueueScreen::default());
    let command = Some(Command::Player { player_command: PlayerCommand::PausePlay });
    let step = dispatch_message(
        &mut app,
        &mut screen,
        &command,
        Message::ChangeScreen { new_screen: Box::new(Screen::Home(HomeScreen::default())) },
    );
    assert!(!app.is_running);
    assert!(matches!(step, Step::Act(ExternalAction::RunPlayer { .. })));
}

#[test]
fn set_device_records_the_name_and_transfers_playback() {
    let mut app = app_with_client();
    let mut devices_screen = DevicesScreen::default();
    devices_screen.device = Device {
        available_devices: vec![("Kitchen".to_string(), "dev-1".to_string())],
        current_device_name: None,
    };
    let mut screen = Screen::Devices(devices_screen);
    let step = dispatch_message(
        &mut app,
        &mut screen,
        &None,
        Message::SetDevice { name: "Kitchen".to_string(), id: "dev-1".to_string() },
    );
    match step {
        Step::Act(ExternalAction::TransferPlayback { id }) => assert_eq!(id, "dev-1"),
        other => panic!("expected a transfer action, got {:?}", other),
    }
    match &screen {
        Screen::Devices(s) => {
            assert_eq!(s.device.current_device_name.as_deref(), Some("Kitchen"));
        }
        _ => unreachable!(),
    }
}

#[test]
fn now_playing_refresh_is_idempotent_for_identical_data() {
    let body = "{\"progress_ms\": 1000, \"shuffle_state\": true, \"item\": {\"id\": \"abc\", \"album\": {\"id\": \"alb\"}, \"artists\": [{\"id\": \"art\"}]}}";
    let mut screen = Screen::NowPlaying(NowPlayingScreen::default());
    let first = resolve_fetch_now_playing(&mut screen, Ok((200, body.to_string())));
    assert!(first.is_none());
    let after_first = match &screen {
        Screen::NowPlaying(s) => s.now_playing.clone(),
        _ => unreachable!(),
    };
    let second = resolve_fetch_now_playing(&mut screen, Ok((200, body.to_string())));
    assert!(second.is_none());
    match &screen {
        Screen::NowPlaying(s) => {
            assert_eq!(s.now_playing.song_id, after_first.song_id);
            assert_eq!(s.now_playing.album_id, after_first.album_id);
            assert_eq!(s.now_playing.artist_ids, after_first.artist_ids);
            assert_eq!(s.now_playing.progress, after_first.progress);
            assert_eq!(s.now_playing.shuffle, after_first.shuffle);
        }
        _ => unreachable!(),
    }
}

#[test]
fn a_204_while_refreshing_means_no_device() {
    let mut screen = Screen::NowPlaying(NowPlayingScreen::default());
    let reply = resolve_fetch_now_playing(&mut screen, Ok((204, String::new())));
    assert_eq!(error_message_of(reply.unwrap()), "No device available");
}

#[test]
fn a_failed_fetch_lands_on_the_error_screen() {
    let mut screen = Screen::NowPlaying(NowPlayingScreen::default());
    let reply =
        resolve_fetch_now_playing(&mut screen, Err(AppError::new("connection refused")));
    assert_eq!(error_message_of(reply.unwrap()), "connection refused");
}

#[test]
fn a_successful_code_exchange_goes_home_and_stops_the_listener() {
    let mut app = app_with_client();
    let body = "{\"access_token\": \"tok\", \"refresh_token\": \"ref\"}";
    let outcome =
        finish_auth_exchange(&mut app, "code-1".to_string(), Ok(Some(body.to_string())));
    assert!(outcome.stop_server);
    let saved = outcome.save.expect("fresh credentials should be persisted");
    assert_eq!(saved.access_token, "tok");
    assert_eq!(saved.refresh_token, "ref");
    match outcome.follow {
        Some(Message::ChangeScreen { new_screen }) => {
            assert_eq!(new_screen.get_screen_type(), ScreenType::Home);
        }
        other => panic!("expected the home transition, got {:?}", other),
    }
}

#[test]
fn a_failed_code_exchange_lands_on_the_error_screen() {
    let mut app = app_with_client();
    let outcome = finish_auth_exchange(
        &mut app,
        "code-1".to_string(),
        Err(AppError::new("token endpoint unreachable")),
    );
    assert!(!outcome.stop_server);
    assert!(outcome.save.is_none());
    assert_eq!(error_message_of(outcome.follow.unwrap()), "token endpoint unreachable");
}

#[test]
fn a_devices_response_is_stored_on_the_owning_screen() {
    let mut screen = Screen::Devices(DevicesScreen::default());
    let body = "{\"devices\": [{\"name\": \"Desk\", \"id\": \"d1\", \"is_active\": true}]}";
    let reply = resolve_fetch_devices(&mut screen, Ok((200, body.to_string())));
    assert!(reply.is_none());
    match &screen {
        Screen::Devices(s) => {
            assert_eq!(s.device.available_devices, vec![("Desk".to_string(), "d1".to_string())]);
            assert_eq!(s.device.current_device_name.as_deref(), Some("Desk"));
        }
        _ => unreachable!(),
    }
}

#[test]
fn an_unreadable_devices_response_lands_on_the_error_screen() {
    let mut screen = Screen::Devices(DevicesScreen::default());
    let reply = resolve_fetch_devices(&mut screen, Ok((200, "not json".to_string())));
    assert_eq!(error_message_of(reply.unwrap()), "Failed to read the response as JSON.");
}

#[test]
fn an_exchange_without_tokens_stays_without_credentials() {
    let mut app = app_with_client();
    let outcome =
        finish_auth_exchange(&mut app, "code-2".to_string(), Ok(Some("{}".to_string())));
    assert!(!outcome.stop_server);
    assert!(outcome.save.is_none());
    assert!(outcome.follow.is_none());
    let client = app.spotify_client.as_ref().unwrap();
    assert_eq!(client.code.as_deref(), Some("code-2"));
    assert!(client.credentials.is_none());
}
