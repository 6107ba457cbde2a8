use vstd::prelude::*;

use crate::bot::callbacks::{reuse_seed, reuse_seed_of};
use crate::bot::settings::ParentKind;
use crate::bot::state::{filter_settings_query, filter_settings_state, BotState, State};
use crate::text::{has_prefix, starts_with};

verus! {

/// A command anyone may use.
#[derive(Debug, Clone, Copy, PartialEq, Eq, Structural)]
pub enum PublicCommand {
    /// Show the help message.
    Help,
    /// Start the bot.
    Start,
    /// Change settings (answered with a notice that it is not available).
    Settings,
}

/// A command read from a message's text.
#[derive(Debug, PartialEq)]
pub enum Command {
    /// A command anyone may use.
    Public(PublicCommand),
    /// Open the text-to-image settings.
    Txt2ImgSettings,
    /// Open the image-to-image settings.
    Img2ImgSettings,
    /// Generate an image from the prompt given.
    Gen(String),
}

/// What to do with a message.
#[derive(Debug, PartialEq)]
pub enum MessageRoute {
    /// Answer a command anyone may use.
    Public(PublicCommand),
    /// Open a settings menu: the image-to-image one for `Photo`, the
    /// text-to-image one for `Text`.
    OpenSettings(ParentKind),
    /// Record the text as the value of the selected setting.
    SettingsValue,
    /// Ask again for a value: the chat is in a settings menu and the message
    /// has no text.
    InvalidSettingsValue,
    /// Generate images from this prompt.
    Prompt(String),
    /// Generate images from the message's photo and caption.
    Image,
    /// Ignore an unknown command.
    UnknownCommand,
    /// Nothing to do: the chat may not use the bot, or the message is of no
    /// use in the chat's state.
    Ignore,
}

/// What to do with a button press.
#[derive(Debug, Clone, Copy, PartialEq, Eq, Structural)]
pub enum CallbackRoute {
    /// Open the settings menu for the message the button is under.
    OpenSettings,
    /// Handle a button of the settings menu.
    SettingsButton,
    /// Reuse this seed for the next generation.
    Reuse(i64),
    /// Run the generation that made the message again.
    Rerun,
    /// Nothing to do.
    Ignore,
}

/// Whether a chat is ready and generating images.
pub open spec fn is_generating(state: State) -> bool {
    state matches State::Ready { bot_state: BotState::Generate, .. }
}

/// Whether a chat is in a settings menu.
pub open spec fn in_settings(state: State) -> bool {
    state matches State::Ready { bot_state, .. } && !(bot_state is Generate)
}

/// Whether callback data is for the settings menu.
pub open spec fn is_settings_query(data: Option<&str>) -> bool {
    data matches Some(d) && has_prefix(d@, "settings"@)
}

fn generating(state: &State) -> (r: bool)
    ensures
        r == is_generating(*state),
{
    match state {
        State::Ready { bot_state: BotState::Generate, .. } => true,
        _ => false,
    }
}

/// Routes a message. `command` is the command read from its text, if any;
/// `text` its text; `photo` and `caption` whether it holds a photo and a
/// caption; `allowed` whether its chat or user may use the bot. Commands
/// anyone may use come first; then, for allowed chats, the settings
/// commands, then values typed into a settings menu, then generation.
pub fn route_message(
    command: Option<Command>,
    text: Option<&str>,
    photo: bool,
    caption: bool,
    allowed: bool,
    state: &State,
) -> (r: MessageRoute)
    ensures
        command matches Some(Command::Public(c)) ==> r == MessageRoute::Public(c),
        !(command matches Some(Command::Public(_))) ==> {
            &&& !allowed ==> r is Ignore
            &&& allowed && command == Some(Command::Txt2ImgSettings) ==> r == MessageRoute::OpenSettings(ParentKind::Text)
            &&& allowed && command == Some(Command::Img2ImgSettings) ==> r == MessageRoute::OpenSettings(ParentKind::Photo)
            &&& allowed && command != Some(Command::Txt2ImgSettings) && command != Some(Command::Img2ImgSettings) ==> {
                &&& in_settings(*state) ==> r == (if text is Some {
                    MessageRoute::SettingsValue
                } else {
                    MessageRoute::InvalidSettingsValue
                })
                &&& is_generating(*state) ==> match command {
                    Some(Command::Gen(s)) => r == MessageRoute::Prompt(s),
                    _ => match text {
                        Some(t) => if has_prefix(t@, "/"@) {
                            r is UnknownCommand
                        } else {
                            r matches MessageRoute::Prompt(p) && p@ == t@
                        },
                        None => if photo && caption {
                            r is Image
                        } else {
                            r is Ignore
                        },
                    },
                }
                &&& state is New ==> r is Ignore
            }
        },
{
    let command = match command {
        Some(Command::Public(c)) => return MessageRoute::Public(c),
        other => other,
    };
    if !allowed {
        return MessageRoute::Ignore;
    }
    match command {
        Some(Command::Txt2ImgSettings) => return MessageRoute::OpenSettings(ParentKind::Text),
        Some(Command::Img2ImgSettings) => return MessageRoute::OpenSettings(ParentKind::Photo),
        _ => {},
    }
    if filter_settings_state(state) {
        return match text {
            Some(_) => MessageRoute::SettingsValue,
            None => MessageRoute::InvalidSettingsValue,
        };
    }
    if !generating(state) {
        return MessageRoute::Ignore;
    }
    if let Some(Command::Gen(s)) = command {
        return MessageRoute::Prompt(s);
    }
    match text {
        Some(t) => if starts_with(t, "/") {
            MessageRoute::UnknownCommand
        } else {
            MessageRoute::Prompt(t.to_owned())
        },
        None => if photo && caption {
            MessageRoute::Image
        } else {
            MessageRoute::Ignore
        },
    }
}

/// Routes a button press with callback data `data`, from a chat in state
/// `state`; `allowed` is whether its chat or user may use the bot. Settings
/// buttons open the menu from a generating chat and act in it from a chat
/// in a menu; reuse and rerun buttons act in a generating chat.
pub fn route_callback(data: Option<&str>, allowed: bool, state: &State) -> (r: CallbackRoute)
    ensures
        !allowed ==> r == CallbackRoute::Ignore,
        allowed && is_settings_query(data) ==> r == (if is_generating(*state) {
            CallbackRoute::OpenSettings
        } else if in_settings(*state) {
            CallbackRoute::SettingsButton
        } else {
            CallbackRoute::Ignore
        }),
        allowed && !is_settings_query(data) ==> r == (if !is_generating(*state) {
            CallbackRoute::Ignore
        } else {
            match data {
                Some(d) => match reuse_seed_of(d@) {
                    Some(seed) => CallbackRoute::Reuse(seed),
                    None => if has_prefix(d@, "rerun"@) {
                        CallbackRoute::Rerun
                    } else {
                        CallbackRoute::Ignore
                    },
                },
                None => CallbackRoute::Ignore,
            }
        }),
{
    if !allowed {
        return CallbackRoute::Ignore;
    }
    if filter_settings_query(data) {
        return if generating(state) {
            CallbackRoute::OpenSettings
        } else if filter_settings_state(state) {
            CallbackRoute::SettingsButton
        } else {
            CallbackRoute::Ignore
        };
    }
    if !generating(state) {
        return CallbackRoute::Ignore;
    }
    match data {
        Some(d) => match reuse_seed(d) {
            Some(seed) => CallbackRoute::Reuse(seed),
            None => if starts_with(d, "rerun") {
                CallbackRoute::Rerun
            } else {
                CallbackRoute::Ignore
            },
        },
        None => CallbackRoute::Ignore,
    }
}

} // verus!
