//! The building blocks screens are composed of: menus, lists, text inputs,
//! forms, tabbed views and the per-domain panels. Each one can take a frame
//! update and a key press and may answer with one message; rendering belongs
//! to the surrounding program.
pub mod album_song_list;
pub mod artist_albums;
pub mod artist_info;
pub mod artist_singles;
pub mod form;
pub mod list;
pub mod menu;
pub mod song_info_window;
pub mod tabs;
pub mod text_input;
pub mod top_songs;
