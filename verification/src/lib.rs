//! Announcements for a TeamSpeak client, to be read out by a speech synthesizer.
//!
//! The library decides what is said about an event and when a text is read out.
//!
//! - [`model`]: what is known of a server, its channels and the people on it.
//! - [`names`]: how servers, channels and people are called.
//! - [`updates`]: what is said when the properties of a connection change.
//! - [`server_events`], [`connection_events`], [`channel_events`] and
//!   [`chat_events`]: what is said about all other events.
//! - [`threads`]: the list of threads that read texts out, with its limit.
//! - [`playback`]: the steps of reading one text out.
//! - [`text`]: small operations on text.
//! - [`laws`]: what the operations promise, said of their arguments and results.
pub mod channel_events;
pub mod chat_events;
pub mod connection_events;
pub mod laws;
pub mod model;
pub mod names;
pub mod playback;
pub mod server_events;
pub mod text;
pub mod threads;
pub mod updates;
