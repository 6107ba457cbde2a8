//! The decisions of the Telegram bot: chat states, access, settings and replies.

pub mod state;
pub mod config;
pub mod settings;
pub mod reply;
pub mod callbacks;
pub mod routing;
pub mod setting_laws;
pub mod keyboard_laws;
pub mod caption_laws;
