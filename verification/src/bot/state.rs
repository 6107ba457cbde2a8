use vstd::prelude::*;

use crate::params::gen_params::GenParams;
use crate::text::{has_prefix, starts_with};

verus! {

/// What the bot is doing in a chat.
#[derive(Debug, Clone, PartialEq)]
pub enum BotState {
    /// Generating images from prompts.
    Generate,
    /// Editing text-to-image settings; the setting being edited, if any.
    SettingsTxt2Img { selection: Option<String> },
    /// Editing image-to-image settings; the setting being edited, if any.
    SettingsImg2Img { selection: Option<String> },
}

impl Default for BotState {
    fn default() -> (r: Self)
        ensures
            r is Generate,
    {
        BotState::Generate
    }
}

/// The state of a chat.
#[derive(Debug, Clone, PartialEq)]
pub enum State {
    /// A chat that has not started.
    New,
    /// A chat with its bot state and generation parameters.
    Ready { bot_state: BotState, txt2img: GenParams, img2img: GenParams },
}

impl Default for State {
    fn default() -> (r: Self)
        ensures
            r is New,
    {
        State::New
    }
}

impl State {
    /// A ready chat generating images with the given parameters.
    pub fn new_with_defaults(txt2img: GenParams, img2img: GenParams) -> (r: Self)
        ensures
            r == (State::Ready { bot_state: BotState::Generate, txt2img, img2img }),
    {
        State::Ready { txt2img, img2img, bot_state: BotState::Generate }
    }
}

/// The bot state of a ready chat.
pub fn filter_map_bot_state(state: State) -> (r: Option<BotState>)
    ensures
        match state {
            State::Ready { bot_state, .. } => r == Some(bot_state),
            State::New => r is None,
        },
{
    match state {
        State::Ready { bot_state, .. } => Some(bot_state),
        _ => None,
    }
}

/// The generation parameters of a ready chat.
pub fn filter_map_settings(state: State) -> (r: Option<(GenParams, GenParams)>)
    ensures
        match state {
            State::Ready { txt2img, img2img, .. } => r == Some((txt2img, img2img)),
            State::New => r is None,
        },
{
    match state {
        State::Ready { txt2img, img2img, .. } => Some((txt2img, img2img)),
        _ => None,
    }
}

/// Whether the chat is editing settings.
pub fn filter_settings_state(state: &State) -> (r: bool)
    ensures
        r <==> (*state matches State::Ready { bot_state, .. } && !(bot_state is Generate)),
{
    match state {
        State::Ready { bot_state, .. } => match bot_state {
            BotState::SettingsTxt2Img { .. } => true,
            BotState::SettingsImg2Img { .. } => true,
            BotState::Generate => false,
        },
        _ => false,
    }
}

/// The setting being edited and the generation parameters of a chat that is
/// editing settings.
pub fn filter_map_settings_state(state: State) -> (r: Option<(Option<String>, GenParams, GenParams)>)
    ensures
        match state {
            State::Ready { bot_state: BotState::SettingsTxt2Img { selection }, txt2img, img2img } => r
                == Some((selection, txt2img, img2img)),
            State::Ready { bot_state: BotState::SettingsImg2Img { selection }, txt2img, img2img } => r
                == Some((selection, txt2img, img2img)),
            _ => r is None,
        },
{
    match state {
        State::Ready { bot_state, txt2img, img2img } => match bot_state {
            BotState::SettingsTxt2Img { selection } => Some((selection, txt2img, img2img)),
            BotState::SettingsImg2Img { selection } => Some((selection, txt2img, img2img)),
            _ => None,
        },
        _ => None,
    }
}

/// Whether a callback query's data is for the settings menu.
pub fn filter_settings_query(data: Option<&str>) -> (r: bool)
    ensures
        r <==> (data matches Some(d) && has_prefix(d@, "settings"@)),
{
    match data {
        Some(d) => starts_with(d, "settings"),
        None => false,
    }
}

} // verus!
