//! A terminal client for a music-streaming service: a message-driven
//! screen-navigation engine with back/forward history, verified with Verus.
pub mod app;
pub mod cli;
pub mod components;
pub mod config;
pub mod error;
pub mod handler;
pub mod json;
pub mod key;
pub mod message;
pub mod rect;
pub mod screens;
pub mod spotify;
pub mod strings;
