//! A multi-user conferencing service for raw byte-stream terminals: the
//! input codec, the navigable screens, the per-connection session engine,
//! the broadcast fan-out and the repository they consume.

pub mod text;
pub mod db;
pub mod input_interface;
pub mod views;
pub mod terminal;
pub mod broadcast_events;
pub mod broadcast_hub;
