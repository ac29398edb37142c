//! The full-frame screens the user navigates between, and the screen union
//! the history and the dispatcher work on.
pub mod create_config;
pub mod devices;
pub mod enter_code;
pub mod error;
pub mod exit;
pub mod home;
pub mod library;
pub mod now_playing;
pub mod queue;
pub mod screen;
pub mod search;
pub mod show_link;
pub mod view_album;
pub mod view_artist;
