//! The screens: the login gate, the per-frame refresh chasing, the key
//! handling and the global bindings.
use spotify_client_tui::app::{App, Persisted, SideRequest};
use spotify_client_tui::config::Config;
use spotify_client_tui::key::Key;
use spotify_client_tui::rect::Rect;
use spotify_client_tui::message::Message;
use spotify_client_tui::screens::enter_code::EnterAuthCodeScreen;
use spotify_client_tui::screens::error::ErrorScreen;
use spotify_client_tui::screens::exit::ExitScreen;
use spotify_client_tui::screens::home::HomeScreen;
use spotify_client_tui::screens::now_playing::NowPlayingScreen;
use spotify_client_tui::screens::screen::{Screen, ScreenType};
use spotify_client_tui::screens::search::SearchScreen;
use spotify_client_tui::screens::show_link::ShowAuthLinkScreen;
use spotify_client_tui::spotify::client::SpotifyClient;

fn incomplete_config() -> Config {
    Config {
        client_id: Some("abc".to_string()),
        client_secret: None,
        redirect_uri: None,
        scope: None,
    }
}

fn complete_config() -> Config {
    Config {
        client_id: Some("abc".to_string()),
        client_secret: Some("shh".to_string()),
        redirect_uri: Some("http://localhost:8888/callback".to_string()),
        scope: Some("user-read-playback-state".to_string()),
    }
}

#[test]
fn home_without_client_and_incomplete_config_opens_the_config_form() {
    let mut app = App::new();
    let files = Persisted { config: incomplete_config(), credentials: None };
    let home = HomeScreen::default();
    let reply = home.tick(&mut app, &files);
    match reply {
        Some(Message::ChangeScreen { new_screen }) => {
            assert_eq!(new_screen.get_screen_type(), ScreenType::CreateConfigFormScreen);
        }
        other => panic!("expected the config form, got {:?}", other),
    }
}

#[test]
fn home_without_client_and_complete_config_builds_the_client() {
    let mut app = App::new();
    let files = Persisted { config: complete_config(), credentials: None };
    let home = HomeScreen::default();
    let reply = home.tick(&mut app, &files);
    assert!(reply.is_none());
    assert!(app.spotify_client.is_some());
}

#[test]
fn home_with_unauthenticated_client_opens_the_login_link() {
    let mut app = App::new();
    let client = SpotifyClient::new(complete_config(), None).unwrap();
    let auth_url = client.auth_url.clone();
    app.spotify_client = Some(client);
    let files = Persisted { config: complete_config(), credentials: None };
    let home = HomeScreen::default();
    let reply = home.tick(&mut app, &files);
    match reply {
        Some(Message::ChangeScreen { new_screen }) => match *new_screen {
            Screen::ShowAuthLink(s) => assert_eq!(s.auth_url, auth_url),
            other => panic!("expected the login link, got {:?}", other.get_screen_type()),
        },
        other => panic!("expected a screen change, got {:?}", other),
    }
}

#[test]
fn now_playing_tick_chases_the_song_exactly_once_per_id_change() {
    let mut screen = NowPlayingScreen::default();
    screen.now_playing.song_id = "abc".to_string();
    assert_eq!(screen.song.id, "");

    let first = screen.tick();
    assert!(matches!(first, Some(Message::RefreshSong)));
    assert_eq!(screen.song.id, "abc");

    // after the simulated refresh set the id, the chase is over
    let second = screen.tick();
    assert!(matches!(second, Some(Message::RefreshNowPlaying)));
}

#[test]
fn home_menu_enter_opens_the_selected_screen() {
    let mut home = HomeScreen::default();
    let reply = home.handle_key_press(Key::Enter);
    match reply {
        Some(Message::ChangeScreen { new_screen }) => {
            assert_eq!(new_screen.get_screen_type(), ScreenType::NowPlayingScreen);
        }
        other => panic!("expected the now-playing screen, got {:?}", other),
    }
    // one step down selects the artist view
    let _ = home.handle_key_press(Key::Char('j'));
    let reply = home.handle_key_press(Key::Enter);
    match reply {
        Some(Message::ChangeScreen { new_screen }) => {
            assert_eq!(new_screen.get_screen_type(), ScreenType::ViewArtistScreen);
        }
        other => panic!("expected the artist view, got {:?}", other),
    }
}

#[test]
fn menu_cursor_wraps_around() {
    let mut home = HomeScreen::default();
    let _ = home.handle_key_press(Key::Char('k'));
    assert_eq!(home.menu.current_menu_index, 6);
    let _ = home.handle_key_press(Key::Char('j'));
    assert_eq!(home.menu.current_menu_index, 0);
}

#[test]
fn menu_paging_counts_six_entries_per_page() {
    let mut home = HomeScreen::default();
    // seven entries fill two pages
    assert_eq!(home.menu.get_total_pages(), 2);
    assert_eq!(home.menu.get_start_index(), 0);
    assert_eq!(home.menu.get_end_index(), 6);
    home.menu.current_page = 2;
    assert_eq!(home.menu.get_start_index(), 6);
    assert_eq!(home.menu.get_end_index(), 7);
}

#[test]
fn the_global_bindings_run_before_the_screen() {
    let mut app = App::new();
    let mut screen = Screen::Home(HomeScreen::default());
    let reply = screen.handle_event(&mut app, Key::Char('H'));
    assert!(matches!(reply, Some(Message::GoToPrevScreen)));
    let reply = screen.handle_event(&mut app, Key::Char('L'));
    assert!(matches!(reply, Some(Message::GoToNextScreen)));
    let reply = screen.handle_event(&mut app, Key::Esc);
    match reply {
        Some(Message::ChangeScreen { new_screen }) => {
            assert_eq!(new_screen.get_screen_type(), ScreenType::Exit);
        }
        other => panic!("expected the exit prompt, got {:?}", other),
    }
}

#[test]
fn the_exit_prompt_suppresses_the_global_bindings() {
    let mut app = App::new();
    let mut screen = Screen::Exit(ExitScreen::default());
    // escape reaches the prompt itself, which ignores it
    let reply = screen.handle_event(&mut app, Key::Esc);
    assert!(reply.is_none());
    // y confirms the exit
    let reply = screen.handle_event(&mut app, Key::Char('y'));
    assert!(reply.is_none());
    assert!(!app.is_running);
}

#[test]
fn the_error_screen_offers_the_retry_choice() {
    let mut app = App::new();
    let screen = ErrorScreen::new("something failed");
    let reply = screen.handle_key_press(&mut app, Key::Char('y'));
    assert!(matches!(reply, Some(Message::GoToPrevScreen)));
    let reply = screen.handle_key_press(&mut app, Key::Char('n'));
    assert!(reply.is_none());
    assert!(!app.is_running);
}

#[test]
fn typing_a_code_and_submitting_hands_it_to_the_dispatcher() {
    let mut app = App::new();
    let mut screen = EnterAuthCodeScreen::default();
    // the render loop would have assigned the field its region
    screen.form.inputs[0].area = Some(Rect { x: 0, y: 0, width: 40, height: 3 });
    // insert mode also flips the global bindings off on the next frame
    let _ = screen.handle_key_press(Key::Char('i'));
    let _ = screen.tick(&mut app);
    assert!(!app.default_key_press_enabled);
    let _ = screen.handle_key_press(Key::Char('x'));
    let _ = screen.handle_key_press(Key::Char('y'));
    let reply = screen.handle_key_press(Key::Enter);
    match reply {
        Some(Message::SetAuthCode { code }) => assert_eq!(code, "xy"),
        other => panic!("expected the typed code, got {:?}", other),
    }
}

#[test]
fn submitting_a_search_escapes_the_query_and_asks_for_a_refresh() {
    let mut app = App::new();
    let mut screen = SearchScreen::default();
    // the render loop would have assigned the query field its region
    screen.search_bar.area = Some(Rect { x: 0, y: 0, width: 40, height: 3 });
    let _ = screen.handle_key_press(Key::Char('d'));
    let _ = screen.handle_key_press(Key::Char('a'));
    let _ = screen.handle_key_press(Key::Char(' '));
    let _ = screen.handle_key_press(Key::Char('f'));
    let reply = screen.handle_key_press(Key::Enter);
    assert!(reply.is_none());
    assert_eq!(screen.search_results.query, "da%20f");
    let reply = screen.tick(&mut app);
    assert!(matches!(reply, Some(Message::RefreshSearchResults)));
    // the refresh is asked for exactly once per submitted query
    let reply = screen.tick(&mut app);
    assert!(reply.is_none());
}

#[test]
fn the_login_link_screen_queues_the_clipboard_copy() {
    let mut app = App::new();
    let mut screen = ShowAuthLinkScreen::new("https://example.test/auth".to_string());
    let reply = screen.handle_key_press(&mut app, Key::Enter);
    assert!(reply.is_none());
    assert!(screen.clipboard_is_copied);
    match app.side_requests.as_slice() {
        [SideRequest::CopyToClipboard(url)] => assert_eq!(url, "https://example.test/auth"),
        other => panic!("expected one clipboard request, got {:?}", other),
    }
}
