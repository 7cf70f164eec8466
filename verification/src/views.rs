//! The screens a session shows, one type per screen, and the sum of them
//! that a session owns.

pub mod base_view;
pub mod current_view;
pub mod menu_view;
pub mod rooms_view;
pub mod users_view;
pub mod room_view;
pub mod direct_message_view;
pub mod user_view;
pub mod login_register_view;
