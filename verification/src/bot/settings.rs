use vstd::prelude::*;

use crate::bot::state::{BotState, State};
use crate::float_bits::FloatBits;
use crate::numbers::{
    decimal, parse_i64, parse_u32, parsed_i64, parsed_u32, push_decimal, push_signed_decimal,
    signed_decimal,
};
use crate::params::gen_params::GenParams;
use crate::text::{has_prefix, skip_chars, starts_with, str_eq};

verus! {

/// A change to one generation parameter.
#[derive(Debug, PartialEq)]
pub enum ParamUpdate {
    /// Set the number of steps.
    Steps(u32),
    /// Set the seed.
    Seed(i64),
    /// Set the number of images.
    Count(u32),
    /// Set the CFG scale.
    Cfg(FloatBits),
    /// Set the image width.
    Width(u32),
    /// Set the image height.
    Height(u32),
    /// Set the negative prompt.
    NegativePrompt(String),
    /// Set the denoising strength.
    Denoising(FloatBits),
}

/// Whether `after` is `before` with the change `u` made.
pub open spec fn updated(before: GenParams, after: GenParams, u: ParamUpdate) -> bool {
    match u {
        ParamUpdate::Steps(v) => before.with_steps(after, v),
        ParamUpdate::Seed(v) => before.with_seed(after, v),
        ParamUpdate::Count(v) => before.with_count(after, v),
        ParamUpdate::Cfg(v) => before.with_cfg(after, v),
        ParamUpdate::Width(v) => before.with_width(after, v),
        ParamUpdate::Height(v) => before.with_height(after, v),
        ParamUpdate::NegativePrompt(v) => before.with_negative_prompt(after, v),
        ParamUpdate::Denoising(v) => before.with_denoising(after, v),
    }
}

impl GenParams {
    /// Makes the change `u`.
    pub fn apply_update(&mut self, u: ParamUpdate)
        ensures
            updated(*old(self), *final(self), u),
    {
        match u {
            ParamUpdate::Steps(v) => self.set_steps(v),
            ParamUpdate::Seed(v) => self.set_seed(v),
            ParamUpdate::Count(v) => self.set_count(v),
            ParamUpdate::Cfg(v) => self.set_cfg(v),
            ParamUpdate::Width(v) => self.set_width(v),
            ParamUpdate::Height(v) => self.set_height(v),
            ParamUpdate::NegativePrompt(v) => self.set_negative_prompt(v),
            ParamUpdate::Denoising(v) => self.set_denoising(v),
        }
    }
}

/// Why a setting could not be changed.
#[derive(Debug, Clone, Copy, PartialEq, Eq, Structural)]
pub enum SettingError {
    /// The value could not be read.
    InvalidValue,
    /// There is no setting of that name.
    InvalidSetting,
}

/// An integer setting's value, or the error for a value that is not one.
pub open spec fn count_or_error(v: Option<u32>) -> Result<u32, SettingError> {
    match v {
        Some(x) => Ok(x),
        None => Err(SettingError::InvalidValue),
    }
}

/// The change a text-to-image setting asks for: the setting's name and the
/// value the user typed, with `number` the value read as a floating-point
/// number when it is one.
pub open spec fn txt2img_update(setting: Seq<char>, value: String, number: Option<FloatBits>) -> Result<ParamUpdate, SettingError> {
    if setting == "steps"@ {
        match parsed_u32(value@) {
            Some(v) => Ok(ParamUpdate::Steps(v)),
            None => Err(SettingError::InvalidValue),
        }
    } else if setting == "seed"@ {
        match parsed_i64(value@) {
            Some(v) => Ok(ParamUpdate::Seed(v)),
            None => Err(SettingError::InvalidValue),
        }
    } else if setting == "count"@ {
        match parsed_u32(value@) {
            Some(v) => Ok(ParamUpdate::Count(v)),
            None => Err(SettingError::InvalidValue),
        }
    } else if setting == "cfg"@ {
        match number {
            Some(v) => Ok(ParamUpdate::Cfg(v)),
            None => Err(SettingError::InvalidValue),
        }
    } else if setting == "width"@ {
        match parsed_u32(value@) {
            Some(v) => Ok(ParamUpdate::Width(v)),
            None => Err(SettingError::InvalidValue),
        }
    } else if setting == "height"@ {
        match parsed_u32(value@) {
            Some(v) => Ok(ParamUpdate::Height(v)),
            None => Err(SettingError::InvalidValue),
        }
    } else if setting == "negative"@ {
        Ok(ParamUpdate::NegativePrompt(value))
    } else if setting == "denoising"@ {
        match number {
            Some(v) => Ok(ParamUpdate::Denoising(v)),
            None => Err(SettingError::InvalidValue),
        }
    } else {
        Err(SettingError::InvalidSetting)
    }
}

/// A size as image-to-image generation takes it: rounded down to a multiple
/// of 64, and between 64 and 1024.
pub open spec fn snapped_size(v: u32) -> u32 {
    let m = (v - v % 64) as u32;
    if m < 64 {
        64
    } else if m > 1024 {
        1024
    } else {
        m
    }
}

/// The change an image-to-image setting asks for: as for text-to-image, with
/// at most 200 steps, a seed of at least -1, between 1 and 10 images, and
/// sizes snapped (see `snapped_size`); `number` is the floating-point value
/// already limited to the setting's range.
pub open spec fn img2img_update(setting: Seq<char>, value: String, number: Option<FloatBits>) -> Result<ParamUpdate, SettingError> {
    match txt2img_update(setting, value, number) {
        Ok(ParamUpdate::Steps(v)) => Ok(ParamUpdate::Steps(if v < 200 { v } else { 200 })),
        Ok(ParamUpdate::Seed(v)) => Ok(ParamUpdate::Seed(if v < -1 { -1i64 } else { v })),
        Ok(ParamUpdate::Count(v)) => Ok(ParamUpdate::Count(if v < 1 { 1 } else if v > 10 { 10 } else { v })),
        Ok(ParamUpdate::Width(v)) => Ok(ParamUpdate::Width(snapped_size(v))),
        Ok(ParamUpdate::Height(v)) => Ok(ParamUpdate::Height(snapped_size(v))),
        other => other,
    }
}

fn err_invalid_value() -> (r: Result<ParamUpdate, SettingError>)
    ensures
        r == Err::<ParamUpdate, SettingError>(SettingError::InvalidValue),
{
    Err(SettingError::InvalidValue)
}

/// The change a text-to-image setting asks for (see `txt2img_update`).
pub fn parse_txt2img_setting(setting: &str, value: String, number: Option<FloatBits>) -> (r: Result<ParamUpdate, SettingError>)
    ensures
        r == txt2img_update(setting@, value, number),
{
    if str_eq(setting, "steps") {
        match parse_u32(value.as_str()) {
            Some(v) => Ok(ParamUpdate::Steps(v)),
            None => err_invalid_value(),
        }
    } else if str_eq(setting, "seed") {
        match parse_i64(value.as_str()) {
            Some(v) => Ok(ParamUpdate::Seed(v)),
            None => err_invalid_value(),
        }
    } else if str_eq(setting, "count") {
        match parse_u32(value.as_str()) {
            Some(v) => Ok(ParamUpdate::Count(v)),
            None => err_invalid_value(),
        }
    } else if str_eq(setting, "cfg") {
        match number {
            Some(v) => Ok(ParamUpdate::Cfg(v)),
            None => err_invalid_value(),
        }
    } else if str_eq(setting, "width") {
        match parse_u32(value.as_str()) {
            Some(v) => Ok(ParamUpdate::Width(v)),
            None => err_invalid_value(),
        }
    } else if str_eq(setting, "height") {
        match parse_u32(value.as_str()) {
            Some(v) => Ok(ParamUpdate::Height(v)),
            None => err_invalid_value(),
        }
    } else if str_eq(setting, "negative") {
        Ok(ParamUpdate::NegativePrompt(value))
    } else if str_eq(setting, "denoising") {
        match number {
            Some(v) => Ok(ParamUpdate::Denoising(v)),
            None => err_invalid_value(),
        }
    } else {
        Err(SettingError::InvalidSetting)
    }
}

fn snap_size(v: u32) -> (r: u32)
    ensures
        r == snapped_size(v),
{
    let m = v - v % 64;
    if m < 64 {
        64
    } else if m > 1024 {
        1024
    } else {
        m
    }
}

/// The change an image-to-image setting asks for (see `img2img_update`).
pub fn parse_img2img_setting(setting: &str, value: String, number: Option<FloatBits>) -> (r: Result<ParamUpdate, SettingError>)
    ensures
        r == img2img_update(setting@, value, number),
{
    match parse_txt2img_setting(setting, value, number) {
        Ok(ParamUpdate::Steps(v)) => Ok(ParamUpdate::Steps(if v < 200 { v } else { 200 })),
        Ok(ParamUpdate::Seed(v)) => Ok(ParamUpdate::Seed(if v < -1 { -1 } else { v })),
        Ok(ParamUpdate::Count(v)) => Ok(ParamUpdate::Count(if v < 1 { 1 } else if v > 10 { 10 } else { v })),
        Ok(ParamUpdate::Width(v)) => Ok(ParamUpdate::Width(snap_size(v))),
        Ok(ParamUpdate::Height(v)) => Ok(ParamUpdate::Height(snap_size(v))),
        other => other,
    }
}

/// Changes a text-to-image setting of `params` (see `txt2img_update`); on
/// an error nothing changes.
pub fn update_txt2img_setting(params: &mut GenParams, setting: &str, value: String, number: Option<FloatBits>) -> (r: Result<(), SettingError>)
    ensures
        match txt2img_update(setting@, value, number) {
            Ok(u) => r is Ok && updated(*old(params), *final(params), u),
            Err(e) => r == Err::<(), SettingError>(e) && *final(params) == *old(params),
        },
{
    match parse_txt2img_setting(setting, value, number) {
        Ok(u) => {
            params.apply_update(u);
            Ok(())
        },
        Err(e) => Err(e),
    }
}

/// Changes an image-to-image setting of `params` (see `img2img_update`); on
/// an error nothing changes.
pub fn update_img2img_setting(params: &mut GenParams, setting: &str, value: String, number: Option<FloatBits>) -> (r: Result<(), SettingError>)
    ensures
        match img2img_update(setting@, value, number) {
            Ok(u) => r is Ok && updated(*old(params), *final(params), u),
            Err(e) => r == Err::<(), SettingError>(e) && *final(params) == *old(params),
        },
{
    match parse_img2img_setting(setting, value, number) {
        Ok(u) => {
            params.apply_update(u);
            Ok(())
        },
        Err(e) => Err(e),
    }
}

/// User-configurable image generation settings.
#[derive(Debug, PartialEq)]
pub struct Settings {
    /// Number of sampling steps.
    pub steps: Option<u32>,
    /// Random seed.
    pub seed: Option<i64>,
    /// Number of images to generate per batch.
    pub batch_size: Option<u32>,
    /// Number of batches of images to generate.
    pub n_iter: Option<u32>,
    /// CFG scale.
    pub cfg_scale: Option<FloatBits>,
    /// Image width.
    pub width: Option<u32>,
    /// Image height.
    pub height: Option<u32>,
    /// Negative prompt.
    pub negative_prompt: Option<String>,
    /// Denoising strength.
    pub denoising_strength: Option<FloatBits>,
    /// Sampler name.
    pub sampler_index: Option<String>,
}

impl Settings {
    /// The settings that generation parameters hold.
    pub fn from_params(value: &GenParams) -> (r: Self)
        ensures
            r == (Settings {
                steps: value.spec_steps(),
                seed: value.spec_seed(),
                batch_size: value.spec_batch_size(),
                n_iter: value.spec_count(),
                cfg_scale: value.spec_cfg(),
                width: value.spec_width(),
                height: value.spec_height(),
                negative_prompt: value.spec_negative_prompt(),
                denoising_strength: value.spec_denoising(),
                sampler_index: value.spec_sampler(),
            }),
    {
        Settings {
            steps: value.steps(),
            seed: value.seed(),
            batch_size: value.batch_size(),
            n_iter: value.count(),
            cfg_scale: value.cfg(),
            width: value.width(),
            height: value.height(),
            negative_prompt: value.negative_prompt(),
            denoising_strength: value.denoising(),
            sampler_index: value.sampler(),
        }
    }
}

/// The label of a keyboard button.
#[derive(Debug, PartialEq)]
pub enum ButtonLabel {
    /// A label of text.
    Text(String),
    /// A label of text followed by a floating-point value.
    Real(String, FloatBits),
}

/// An inline keyboard button: its label and its callback data.
#[derive(Debug, PartialEq)]
pub struct Button {
    /// The label.
    pub label: ButtonLabel,
    /// The callback data.
    pub data: String,
}

/// The abstract value of a button: its label text, its floating-point
/// value if any, and its callback data.
pub type ButtonView = (Seq<char>, Option<FloatBits>, Seq<char>);

impl View for Button {
    type V = ButtonView;

    open spec fn view(&self) -> ButtonView {
        match self.label {
            ButtonLabel::Text(t) => (t@, None, self.data@),
            ButtonLabel::Real(t, v) => (t@, Some(v), self.data@),
        }
    }
}

/// The button for an optional setting.
pub open spec fn opt_button(present: bool, b: ButtonView) -> Seq<ButtonView> {
    if present {
        seq![b]
    } else {
        seq![]
    }
}

/// The buttons of the settings menu, in order: one for each setting that
/// has a value (steps, seed, batch count, CFG scale, width, height,
/// negative prompt, denoising strength), then one to cancel.
pub open spec fn settings_buttons(s: Settings) -> Seq<ButtonView> {
    opt_button(s.steps is Some, ("Steps: "@ + decimal(s.steps->0 as nat), None, "settings_steps"@))
        + opt_button(s.seed is Some, ("Seed: "@ + signed_decimal(s.seed->0 as int), None, "settings_seed"@))
        + opt_button(s.n_iter is Some, ("Batch Count: "@ + decimal(s.n_iter->0 as nat), None, "settings_count"@))
        + opt_button(s.cfg_scale is Some, ("CFG Scale: "@, s.cfg_scale, "settings_cfg"@))
        + opt_button(s.width is Some, ("Width: "@ + decimal(s.width->0 as nat), None, "settings_width"@))
        + opt_button(s.height is Some, ("Height: "@ + decimal(s.height->0 as nat), None, "settings_height"@))
        + opt_button(s.negative_prompt is Some, ("Negative Prompt"@, None, "settings_negative"@))
        + opt_button(s.denoising_strength is Some, ("Denoising Strength: "@, s.denoising_strength, "settings_denoising"@))
        + seq![("Cancel"@, None, "settings_back"@)]
}

/// `b` cut into rows of two, the last row holding what is left.
pub open spec fn rows_of_two<T>(b: Seq<T>) -> Seq<Seq<T>>
    decreases b.len(),
{
    if b.len() == 0 {
        seq![]
    } else if b.len() <= 2 {
        seq![b]
    } else {
        seq![b.take(2)] + rows_of_two(b.skip(2))
    }
}

/// The view of rows of buttons.
pub open spec fn rows_view(rows: Seq<Vec<Button>>) -> Seq<Seq<ButtonView>> {
    rows.map_values(|row: Vec<Button>| row@.map_values(|b: Button| b@))
}

fn text_button(label: String, data: &str) -> (b: Button)
    ensures
        b@ == (label@, None::<FloatBits>, data@),
{
    Button { label: ButtonLabel::Text(label), data: data.to_owned() }
}

fn push_button(v: &mut Vec<Button>, b: Button)
    ensures
        buttons_view(final(v)@) == buttons_view(old(v)@) + seq![b@],
{
    let ghost before = v@;
    v.push(b);
    assert(buttons_view(v@) =~= buttons_view(before) + seq![b@]);
}

/// Cuts `buttons` into rows of two.
fn into_rows(buttons: Vec<Button>) -> (r: Vec<Vec<Button>>)
    ensures
        rows_view(r@) == rows_of_two(buttons_view(buttons@)),
    decreases buttons.len(),
{
    let mut buttons = buttons;
    let ghost all = buttons_view(buttons@);
    if buttons.len() == 0 {
        let r: Vec<Vec<Button>> = Vec::new();
        assert(rows_view(r@) =~= rows_of_two(all));
        return r;
    }
    if buttons.len() <= 2 {
        let mut r: Vec<Vec<Button>> = Vec::new();
        r.push(buttons);
        assert(rows_view(r@) =~= seq![all]);
        return r;
    }
    let rest = buttons.split_off(2);
    assert(buttons_view(buttons@) =~= all.take(2));
    assert(buttons_view(rest@) =~= all.skip(2));
    let tail = into_rows(rest);
    let mut r: Vec<Vec<Button>> = Vec::new();
    r.push(buttons);
    let mut tail = tail;
    r.append(&mut tail);
    assert(rows_view(r@) =~= seq![all.take(2)] + rows_of_two(all.skip(2)));
    r
}

/// The view of a list of buttons.
pub open spec fn buttons_view(v: Seq<Button>) -> Seq<ButtonView> {
    v.map_values(|x: Button| x@)
}

fn push_count_button(v: &mut Vec<Button>, value: Option<u32>, prefix: &str, data: &str)
    ensures
        buttons_view(final(v)@) == buttons_view(old(v)@) + opt_button(
            value is Some,
            (prefix@ + decimal(value->0 as nat), None, data@),
        ),
{
    match value {
        Some(n) => {
            let mut t = prefix.to_owned();
            push_decimal(&mut t, n as u64);
            push_button(v, text_button(t, data));
        },
        None => {
            assert(buttons_view(v@) =~= buttons_view(v@) + seq![]);
        },
    }
}

fn push_seed_button(v: &mut Vec<Button>, value: Option<i64>, prefix: &str, data: &str)
    ensures
        buttons_view(final(v)@) == buttons_view(old(v)@) + opt_button(
            value is Some,
            (prefix@ + signed_decimal(value->0 as int), None, data@),
        ),
{
    match value {
        Some(n) => {
            let mut t = prefix.to_owned();
            push_signed_decimal(&mut t, n);
            push_button(v, text_button(t, data));
        },
        None => {
            assert(buttons_view(v@) =~= buttons_view(v@) + seq![]);
        },
    }
}

fn push_real_button(v: &mut Vec<Button>, value: Option<FloatBits>, prefix: &str, data: &str)
    ensures
        buttons_view(final(v)@) == buttons_view(old(v)@) + opt_button(value is Some, (prefix@, value, data@)),
{
    match value {
        Some(x) => {
            push_button(v, Button { label: ButtonLabel::Real(prefix.to_owned(), x), data: data.to_owned() });
        },
        None => {
            assert(buttons_view(v@) =~= buttons_view(v@) + seq![]);
        },
    }
}

fn push_text_button(v: &mut Vec<Button>, present: bool, label: &str, data: &str)
    ensures
        buttons_view(final(v)@) == buttons_view(old(v)@) + opt_button(present, (label@, None, data@)),
{
    if present {
        push_button(v, text_button(label.to_owned(), data));
    } else {
        assert(buttons_view(v@) =~= buttons_view(v@) + seq![]);
    }
}

impl Settings {
    /// The buttons of the settings menu in rows of two (see
    /// `settings_buttons`).
    pub fn keyboard(&self) -> (r: Vec<Vec<Button>>)
        ensures
            rows_view(r@) == rows_of_two(settings_buttons(*self)),
    {
        let mut v: Vec<Button> = Vec::new();
        assert(buttons_view(v@) =~= seq![]);
        push_count_button(&mut v, self.steps, "Steps: ", "settings_steps");
        push_seed_button(&mut v, self.seed, "Seed: ", "settings_seed");
        push_count_button(&mut v, self.n_iter, "Batch Count: ", "settings_count");
        push_real_button(&mut v, self.cfg_scale, "CFG Scale: ", "settings_cfg");
        push_count_button(&mut v, self.width, "Width: ", "settings_width");
        push_count_button(&mut v, self.height, "Height: ", "settings_height");
        push_text_button(&mut v, self.negative_prompt.is_some(), "Negative Prompt", "settings_negative");
        push_real_button(&mut v, self.denoising_strength, "Denoising Strength: ", "settings_denoising");
        push_text_button(&mut v, true, "Cancel", "settings_back");
        assert(buttons_view(v@) =~= settings_buttons(*self));
        into_rows(v)
    }
}

/// What a press on a settings menu button asks for.
#[derive(Debug, PartialEq)]
pub enum SettingsButton {
    /// The query has no data, or data not for a setting.
    Invalid,
    /// Leave the settings menu.
    Back,
    /// Edit the named setting.
    Select(String),
}

/// Reads the callback data of a settings menu button: `settings_back`
/// leaves the menu, `settings_<name>` selects setting `<name>`.
pub fn settings_button(data: Option<&str>) -> (r: SettingsButton)
    ensures
        match data {
            Some(d) => if has_prefix(d@, "settings_"@) {
                if d@.skip(9) == "back"@ {
                    r is Back
                } else {
                    r matches SettingsButton::Select(s) && s@ == d@.skip(9)
                }
            } else {
                r is Invalid
            },
            None => r is Invalid,
        },
{
    proof {
        reveal_strlit("settings_");
    }
    match data {
        Some(d) => {
            if starts_with(d, "settings_") {
                let setting = skip_chars(d, 9);
                assert(setting@ == d@.skip(9));
                if str_eq(setting.as_str(), "back") {
                    SettingsButton::Back
                } else {
                    SettingsButton::Select(setting)
                }
            } else {
                SettingsButton::Invalid
            }
        },
        None => SettingsButton::Invalid,
    }
}

/// The state after selecting setting `setting` in the settings menu: the
/// selection recorded, when the chat is in a settings menu; `None`
/// otherwise.
pub fn select_setting(state: State, setting: String) -> (r: Option<State>)
    ensures
        match state {
            State::Ready { bot_state: BotState::SettingsTxt2Img { .. }, txt2img, img2img } => r == Some(
                State::Ready { bot_state: BotState::SettingsTxt2Img { selection: Some(setting) }, txt2img, img2img },
            ),
            State::Ready { bot_state: BotState::SettingsImg2Img { .. }, txt2img, img2img } => r == Some(
                State::Ready { bot_state: BotState::SettingsImg2Img { selection: Some(setting) }, txt2img, img2img },
            ),
            _ => r is None,
        },
{
    match state {
        State::Ready { bot_state, txt2img, img2img } => match bot_state {
            BotState::SettingsTxt2Img { .. } => Some(
                State::Ready { bot_state: BotState::SettingsTxt2Img { selection: Some(setting) }, txt2img, img2img },
            ),
            BotState::SettingsImg2Img { .. } => Some(
                State::Ready { bot_state: BotState::SettingsImg2Img { selection: Some(setting) }, txt2img, img2img },
            ),
            BotState::Generate => None,
        },
        State::New => None,
    }
}

/// What a message a settings menu or reply button refers to holds.
#[derive(Debug, Clone, Copy, PartialEq, Eq, Structural)]
pub enum ParentKind {
    /// A photo: image-to-image generation.
    Photo,
    /// Text: text-to-image generation.
    Text,
    /// Anything else.
    Other,
}

/// The settings menu to open for a message: the image-to-image settings for
/// a photo, the text-to-image settings for text, with the chat put in that
/// menu; `None` for anything else.
pub fn open_settings(parent: ParentKind, txt2img: GenParams, img2img: GenParams) -> (r: Option<(Settings, State)>)
    ensures
        parent == ParentKind::Photo ==> (r matches Some((s, st)) && s == Settings::spec_from(img2img)
            && st == (State::Ready { bot_state: BotState::SettingsImg2Img { selection: None }, txt2img, img2img })),
        parent == ParentKind::Text ==> (r matches Some((s, st)) && s == Settings::spec_from(txt2img)
            && st == (State::Ready { bot_state: BotState::SettingsTxt2Img { selection: None }, txt2img, img2img })),
        parent == ParentKind::Other ==> r is None,
{
    match parent {
        ParentKind::Photo => {
            let settings = Settings::from_params(&img2img);
            Some((settings, State::Ready { bot_state: BotState::SettingsImg2Img { selection: None }, txt2img, img2img }))
        },
        ParentKind::Text => {
            let settings = Settings::from_params(&txt2img);
            Some((settings, State::Ready { bot_state: BotState::SettingsTxt2Img { selection: None }, txt2img, img2img }))
        },
        ParentKind::Other => None,
    }
}

impl Settings {
    /// The settings that generation parameters hold.
    pub open spec fn spec_from(value: GenParams) -> Settings {
        Settings {
            steps: value.spec_steps(),
            seed: value.spec_seed(),
            batch_size: value.spec_batch_size(),
            n_iter: value.spec_count(),
            cfg_scale: value.spec_cfg(),
            width: value.spec_width(),
            height: value.spec_height(),
            negative_prompt: value.spec_negative_prompt(),
            denoising_strength: value.spec_denoising(),
            sampler_index: value.spec_sampler(),
        }
    }
}

/// Records a value typed for the selected text-to-image setting: on
/// success the settings to show and the chat back in the menu with no
/// selection; without a selection nothing is changed; on an error, the
/// error.
pub fn txt2img_settings_value(selection: Option<String>, txt2img: GenParams, img2img: GenParams, text: String, number: Option<FloatBits>) -> (r: Result<(Settings, State), SettingError>)
    ensures
        match selection {
            None => r matches Ok((s, st)) && s == Settings::spec_from(txt2img) && st == (State::Ready {
                bot_state: BotState::SettingsTxt2Img { selection: None },
                txt2img,
                img2img,
            }),
            Some(sel) => match txt2img_update(sel@, text, number) {
                Ok(u) => r matches Ok((s, st)) && st matches State::Ready {
                    bot_state: BotState::SettingsTxt2Img { selection: None },
                    txt2img: t,
                    img2img: i,
                } && i == img2img && updated(txt2img, t, u) && s == Settings::spec_from(t),
                Err(e) => r == Err::<(Settings, State), SettingError>(e),
            },
        },
{
    let mut txt2img = txt2img;
    if let Some(setting) = selection {
        if let Err(e) = update_txt2img_setting(&mut txt2img, setting.as_str(), text, number) {
            return Err(e);
        }
    }
    let settings = Settings::from_params(&txt2img);
    Ok((settings, State::Ready { bot_state: BotState::SettingsTxt2Img { selection: None }, txt2img, img2img }))
}

/// Records a value typed for the selected image-to-image setting (as
/// `txt2img_settings_value`, with `img2img_update`).
pub fn img2img_settings_value(selection: Option<String>, txt2img: GenParams, img2img: GenParams, text: String, number: Option<FloatBits>) -> (r: Result<(Settings, State), SettingError>)
    ensures
        match selection {
            None => r matches Ok((s, st)) && s == Settings::spec_from(img2img) && st == (State::Ready {
                bot_state: BotState::SettingsImg2Img { selection: None },
                txt2img,
                img2img,
            }),
            Some(sel) => match img2img_update(sel@, text, number) {
                Ok(u) => r matches Ok((s, st)) && st matches State::Ready {
                    bot_state: BotState::SettingsImg2Img { selection: None },
                    txt2img: t,
                    img2img: i,
                } && t == txt2img && updated(img2img, i, u) && s == Settings::spec_from(i),
                Err(e) => r == Err::<(Settings, State), SettingError>(e),
            },
        },
{
    let mut img2img = img2img;
    if let Some(setting) = selection {
        if let Err(e) = update_img2img_setting(&mut img2img, setting.as_str(), text, number) {
            return Err(e);
        }
    }
    let settings = Settings::from_params(&img2img);
    Ok((settings, State::Ready { bot_state: BotState::SettingsImg2Img { selection: None }, txt2img, img2img }))
}

} // verus!
