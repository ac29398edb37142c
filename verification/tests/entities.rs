//! The domain entities and string helpers: rendering, parsing and the
//! trusted boundary exercised through public functions.
use spotify_client_tui::config::Config;
use spotify_client_tui::spotify::album::Album;
use spotify_client_tui::spotify::artist::{monthly_listeners_from_html, Artist};
use spotify_client_tui::spotify::client::{surface_final_status, SpotifyClient};
use spotify_client_tui::spotify::player::SpotifyPlayer;
use spotify_client_tui::spotify::device::Device;
use spotify_client_tui::spotify::now_playing::NowPlaying;
use spotify_client_tui::spotify::search_results::SearchResults;
use spotify_client_tui::spotify::song::Song;
use spotify_client_tui::strings::{
    extract_after_src, get_host_from_redirect_url, milliseconds_to_clock_string, u64_to_string,
    Capitalize, ToStringVec,
};

#[test]
fn durations_render_as_minutes_and_padded_seconds() {
    assert_eq!(milliseconds_to_clock_string(0), "0:00");
    assert_eq!(milliseconds_to_clock_string(61_000), "1:01");
    assert_eq!(milliseconds_to_clock_string(600_000), "10:00");
    assert_eq!(milliseconds_to_clock_string(59_999), "0:59");
}

#[test]
fn numbers_render_in_decimal() {
    assert_eq!(u64_to_string(0), "0");
    assert_eq!(u64_to_string(42), "42");
    assert_eq!(u64_to_string(1_000_000), "1000000");
}

#[test]
fn progress_and_shuffle_render_for_the_now_playing_view() {
    let mut now_playing = NowPlaying::default();
    now_playing.progress = 61_000;
    now_playing.shuffle = true;
    assert_eq!(now_playing.get_progress_string(), "1:01");
    assert_eq!(now_playing.get_shuffle_string(), "Shuffle: On");
    now_playing.shuffle = false;
    assert_eq!(now_playing.get_shuffle_string(), "Shuffle: Off");
}

#[test]
fn artist_names_join_with_commas() {
    let mut song = Song::new("id-1".to_string());
    assert_eq!(song.get_artists_string(), "");
    song.artist_names = vec!["A".to_string()];
    assert_eq!(song.get_artists_string(), "A");
    song.artist_names = vec!["A".to_string(), "B".to_string(), "C".to_string()];
    assert_eq!(song.get_artists_string(), "A, B, C");
}

#[test]
fn emptiness_tracks_the_unloaded_state() {
    assert!(NowPlaying::default().is_empty());
    assert!(Song::default().is_empty());
    assert!(Album::new("x".to_string()).is_empty());
    assert!(Artist::new("x".to_string()).is_empty());
    let mut artist = Artist::new("x".to_string());
    artist.name = "Someone".to_string();
    assert!(!artist.is_empty());
}

#[test]
fn top_results_interleave_the_four_kinds_with_labels() {
    let mut results = SearchResults::default();
    results.artists = vec![("Art".to_string(), "a1".to_string())];
    results.albums = vec![
        ("Alb0".to_string(), "b0".to_string()),
        ("Alb1".to_string(), "b1".to_string()),
    ];
    results.songs = vec![
        ("S0".to_string(), "s0".to_string()),
        ("S1".to_string(), "s1".to_string()),
        ("S2".to_string(), "s2".to_string()),
    ];
    results.playlists = vec![];
    let top = results.get_top_results();
    // rotation step zero takes artists[0], step one albums[1], step two songs[2]
    assert_eq!(
        top,
        vec![
            ("Art - Artist".to_string(), "a1".to_string()),
            ("Alb1 - Album".to_string(), "b1".to_string()),
            ("S2 - Song".to_string(), "s2".to_string()),
        ]
    );
}

#[test]
fn queries_escape_their_spaces() {
    let mut results = SearchResults::default();
    results.set_query("two words here".to_string());
    assert_eq!(results.get_query().as_str(), "two%20words%20here");
    assert_eq!(
        results.search_path(),
        "search?type=artist,album,track,playlist&limit=50&q=two%20words%20here"
    );
}

#[test]
fn device_labels_star_the_active_device_and_need_one() {
    let mut device = Device::default();
    device.available_devices = vec![
        ("Kitchen".to_string(), "d1".to_string()),
        ("Desk".to_string(), "d2".to_string()),
    ];
    // without an active device nothing is listed
    assert_eq!(device.get_available_devices_names(), Vec::<String>::new());
    device.current_device_name = Some("Desk".to_string());
    assert_eq!(
        device.get_available_devices_names(),
        vec!["Kitchen".to_string(), "* Desk *".to_string()]
    );
}

#[test]
fn a_devices_response_keys_the_table_by_name() {
    let device = Device::default();
    let body = "{\"devices\": [{\"name\": \"Desk\", \"id\": \"old\", \"is_active\": false},{\"name\": \"Desk\", \"id\": \"new\", \"is_active\": true},{\"name\": \"Kitchen\", \"id\": \"k1\", \"is_active\": false}]}";
    let fresh = device.refreshed_from_response(200, body).unwrap();
    assert_eq!(
        fresh.available_devices,
        vec![
            ("Desk".to_string(), "new".to_string()),
            ("Kitchen".to_string(), "k1".to_string()),
        ]
    );
    assert_eq!(fresh.current_device_name.as_deref(), Some("Desk"));
    // anything but a success leaves the table alone
    let kept = device.refreshed_from_response(500, "").unwrap();
    assert_eq!(kept.available_devices.len(), 0);
}

#[test]
fn genres_capitalize_every_word() {
    assert_eq!(Artist::capitalize_genre("rock".to_string()), "Rock");
    assert_eq!(Artist::capitalize_genre("hip hop".to_string()), "Hip Hop");
    assert_eq!(Artist::capitalize_genre("".to_string()), "");
    assert_eq!("already Upper".to_string().capitalize(), "Already Upper");
}

#[test]
fn paths_after_the_source_marker_are_extracted() {
    assert_eq!(extract_after_src(Some("workspace/src/core/app.rs")), "core/app.rs");
    assert_eq!(extract_after_src(Some("no marker here")), "");
    assert_eq!(extract_after_src(None), "");
}

#[test]
fn the_listener_host_comes_from_the_redirect_url() {
    assert_eq!(get_host_from_redirect_url("http://localhost:8888/callback"), "localhost:8888");
    assert_eq!(get_host_from_redirect_url("not a url"), "");
}

#[test]
fn string_slices_become_owned_strings() {
    let strs: Vec<&str> = vec!["a", "b"];
    assert_eq!(strs.to_string_vec(), vec!["a".to_string(), "b".to_string()]);
}

#[test]
fn a_player_response_fills_every_field() {
    let body = "{\"progress_ms\": 123000, \"shuffle_state\": true, \"item\": {\"id\": \"song-1\", \"album\": {\"id\": \"alb-1\"}, \"artists\": [{\"id\": \"art-1\"}, {\"id\": \"art-2\"}]}}";
    let now_playing = NowPlaying::from_player_response(200, body).unwrap();
    assert_eq!(now_playing.song_id, "song-1");
    assert_eq!(now_playing.album_id, "alb-1");
    assert_eq!(now_playing.artist_ids, vec!["art-1".to_string(), "art-2".to_string()]);
    assert_eq!(now_playing.progress, 123_000);
    assert!(now_playing.shuffle);
}

#[test]
fn a_track_response_keeps_only_the_year_of_a_full_date() {
    let body = "{\"name\": \"Track\", \"duration_ms\": 200000, \"disc_number\": 1, \"track_number\": 7, \"artists\": [{\"name\": \"A\"}], \"album\": {\"name\": \"Alb\", \"release_date\": \"2020-01-31\"}}";
    let song = Song::from_track_response(body).unwrap();
    assert_eq!(song.name, "Track");
    assert_eq!(song.album_year, "2020");
    assert_eq!(song.track_number, 7);
    assert_eq!(song.get_song_length_string(), "3:20");
}

#[test]
fn an_album_response_lists_its_tracks() {
    let body = "{\"name\": \"Alb\", \"release_date\": \"1999-09-09\", \"total_tracks\": 2, \"artists\": [{\"name\": \"A\"}], \"tracks\": {\"items\": [{\"name\": \"One\", \"id\": \"t1\"}, {\"name\": \"Two\", \"id\": \"t2\"}]}}";
    let album = Album::from_album_response(body).unwrap();
    assert_eq!(album.year, "1999");
    assert_eq!(album.total_songs, 2);
    assert_eq!(
        album.songs,
        vec![("One".to_string(), "t1".to_string()), ("Two".to_string(), "t2".to_string())]
    );
    assert_eq!(album.get_first_artist(), "A");
}

#[test]
fn refreshing_keeps_the_identity_key() {
    let mut song = Song::new("keep-me".to_string());
    let fresh = Song::from_track_response("{\"name\": \"T\"}").unwrap();
    song.refresh_from(fresh);
    assert_eq!(song.id, "keep-me");
    assert_eq!(song.name, "T");
}

#[test]
fn the_authorize_url_carries_the_encoded_configuration() {
    let config = Config {
        client_id: Some("abc".to_string()),
        client_secret: Some("shh".to_string()),
        redirect_uri: Some("http://localhost/cb".to_string()),
        scope: Some("user read".to_string()),
    };
    let client = SpotifyClient::new(config, None).unwrap();
    assert_eq!(
        client.auth_url,
        "https://accounts.spotify.com/authorize?response_type=code&client_id=abc&redirect_uri=http%3A%2F%2Flocalhost%2Fcb&scope=user+read"
    );
}

#[test]
fn the_code_exchange_request_carries_the_basic_header() {
    let config = Config {
        client_id: Some("a".to_string()),
        client_secret: Some("b".to_string()),
        redirect_uri: Some("http://localhost/cb".to_string()),
        scope: Some("s".to_string()),
    };
    let client = SpotifyClient::new(config, None).unwrap();
    let request = client.auth_code_request(&"the-code".to_string()).unwrap();
    // the standard base64 encoding of "a:b"
    assert_eq!(request.auth_header, "Basic YTpi");
    assert_eq!(
        request.body,
        vec![
            ("code".to_string(), "the-code".to_string()),
            ("grant_type".to_string(), "authorization_code".to_string()),
            ("redirect_uri".to_string(), "http://localhost/cb".to_string()),
        ]
    );
}

#[test]
fn the_monthly_listeners_come_from_the_public_page() {
    let html = "<html><body><div id=\"main\"><span data-testid=\"monthly-listeners-label\">1,234,567 monthly listeners</span></div></body></html>";
    assert_eq!(monthly_listeners_from_html(html), "1,234,567");
    assert_eq!(monthly_listeners_from_html("<html></html>"), "");
}

#[test]
fn an_artist_is_assembled_from_its_five_responses() {
    let artist_body = "{\"name\": \"Someone\", \"genres\": [\"hip hop\", \"rock\"], \"followers\": {\"total\": 1234567}}";
    let top_body = "{\"tracks\": [{\"name\": \"Hit\", \"id\": \"h1\"}]}";
    let albums_body = "{\"items\": [{\"name\": \"Alb\", \"id\": \"a1\"}]}";
    let singles_body = "{\"items\": [{\"name\": \"Sgl\", \"id\": \"s1\"}]}";
    let html = "<html><body><div id=\"main\"><span data-testid=\"monthly-listeners-label\">89 monthly listeners</span></div></body></html>";
    let artist =
        Artist::from_responses(artist_body, top_body, albums_body, singles_body, html).unwrap();
    assert_eq!(artist.name, "Someone");
    assert_eq!(artist.genres, vec!["Hip Hop".to_string(), "Rock".to_string()]);
    assert_eq!(artist.followers, "1,234,567");
    assert_eq!(artist.monthly_listeners, "89");
    assert_eq!(artist.top_songs, vec![("Hit".to_string(), "h1".to_string())]);
    assert_eq!(artist.albums, vec![("Alb".to_string(), "a1".to_string())]);
    assert_eq!(artist.singles, vec![("Sgl".to_string(), "s1".to_string())]);
}

#[test]
fn token_responses_yield_their_tokens() {
    let (access, refresh) =
        SpotifyClient::tokens_from_response("{\"access_token\": \"a\", \"refresh_token\": \"r\"}")
            .unwrap();
    assert_eq!(access.as_deref(), Some("a"));
    assert_eq!(refresh.as_deref(), Some("r"));
    let (access, refresh) = SpotifyClient::tokens_from_response("{}").unwrap();
    assert!(access.is_none());
    assert!(refresh.is_none());
    assert!(SpotifyClient::tokens_from_response("not json").is_err());
}

#[test]
fn an_incomplete_configuration_is_refused_with_its_reason() {
    let config = Config {
        client_id: None,
        client_secret: None,
        redirect_uri: None,
        scope: None,
    };
    let error = SpotifyClient::new(config, None).unwrap_err();
    assert_eq!(
        error.message().as_str(),
        "Failed to create Spotify Client: \nNo Client ID provided."
    );
    let config = Config {
        client_id: Some("abc".to_string()),
        client_secret: None,
        redirect_uri: None,
        scope: None,
    };
    let error = SpotifyClient::new(config, None).unwrap_err();
    assert_eq!(
        error.message().as_str(),
        "Failed to create Spotify Client: \nNo Redirect URI provided."
    );
}

#[test]
fn an_unreadable_body_fails_the_refresh() {
    let result = NowPlaying::from_player_response(200, "not json");
    assert_eq!(
        result.unwrap_err().message().as_str(),
        "Failed to read the response as JSON."
    );
    assert!(Song::from_track_response("{").is_err());
    assert!(Album::from_album_response("").is_err());
}

#[test]
fn a_still_unauthorized_retry_surfaces_as_an_error() {
    let error = surface_final_status(401, String::new()).unwrap_err();
    assert_eq!(
        error.message().as_str(),
        "Still unauthorized after refreshing the access token."
    );
    let (status, body) = surface_final_status(200, "ok".to_string()).unwrap();
    assert_eq!(status, 200);
    assert_eq!(body, "ok");
}

#[test]
fn the_playing_flag_is_read_from_the_player_state() {
    let player = SpotifyPlayer::new();
    assert!(player.parse_is_playing(200, "{\"is_playing\": true}").unwrap());
    assert!(!player.parse_is_playing(200, "{\"is_playing\": false}").unwrap());
    assert!(!player.parse_is_playing(200, "{}").unwrap());
    assert!(!player.parse_is_playing(503, "").unwrap());
    assert_eq!(
        player.parse_is_playing(204, "").unwrap_err().message().as_str(),
        "No Spotify device active."
    );
    assert!(player.parse_is_playing(200, "not json").is_err());
}

#[test]
fn the_shuffle_state_is_read_only_from_a_success() {
    let player = SpotifyPlayer::new();
    assert_eq!(player.parse_shuffle_state(200, "{\"shuffle_state\": true}").unwrap(), Some(true));
    assert_eq!(
        player.parse_shuffle_state(200, "{\"shuffle_state\": false}").unwrap(),
        Some(false)
    );
    assert_eq!(player.parse_shuffle_state(200, "{}").unwrap(), None);
    assert_eq!(player.parse_shuffle_state(404, "").unwrap(), None);
    assert!(player.parse_shuffle_state(200, "not json").is_err());
}
