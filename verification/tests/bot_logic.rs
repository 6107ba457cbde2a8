use stable_diffusion_bot::bot::callbacks::{
    help_text, rerun_action, reuse, reuse_answer, reuse_seed, HelpText, RerunAction,
};
use stable_diffusion_bot::bot::config::{auth_filter, state_or_default, ConfigParameters, ApiType, BotBuildError, StableDiffusionBotBuilder, Backend};
use stable_diffusion_bot::bot::reply::{keyboard, reply_seed, MessageText, Photo, Reply, TextPart, CaptionError};
use stable_diffusion_bot::bot::settings::{
    open_settings, select_setting, settings_button, txt2img_settings_value, update_img2img_setting,
    update_txt2img_setting, ButtonLabel, ParentKind, SettingError, Settings, SettingsButton,
};
use stable_diffusion_bot::bot::state::{BotState, State};
use stable_diffusion_bot::bot::routing::{
    route_callback, route_message, CallbackRoute, Command, MessageRoute, PublicCommand,
};
use stable_diffusion_bot::float_bits::FloatBits;
use stable_diffusion_bot::params::api::StableDiffusionWebUiApi;
use stable_diffusion_bot::params::gen_params::{GenParams, Img2ImgParams, Txt2ImgParams};
use stable_diffusion_bot::params::image_params::ImageParams;
use stable_diffusion_bot::workflow::prompt::Prompt;

fn float(v: f64) -> FloatBits {
    FloatBits { bits: v.to_bits() }
}

fn img2img() -> GenParams {
    GenParams::Img2Img(Img2ImgParams::default())
}

fn txt2img() -> GenParams {
    GenParams::Txt2Img(Txt2ImgParams::default())
}

#[test]
fn img2img_settings_are_limited() {
    let mut p = img2img();
    assert_eq!(update_img2img_setting(&mut p, "width", "1000".to_string(), None), Ok(()));
    assert_eq!(p.width(), Some(960));
    update_img2img_setting(&mut p, "height", "50".to_string(), None).unwrap();
    assert_eq!(p.height(), Some(64));
    update_img2img_setting(&mut p, "height", "5000".to_string(), None).unwrap();
    assert_eq!(p.height(), Some(1024));
    update_img2img_setting(&mut p, "steps", "500".to_string(), None).unwrap();
    assert_eq!(p.steps(), Some(200));
    update_img2img_setting(&mut p, "seed", "-5".to_string(), None).unwrap();
    assert_eq!(p.seed(), Some(-1));
    update_img2img_setting(&mut p, "count", "0".to_string(), None).unwrap();
    assert_eq!(p.count(), Some(1));
    update_img2img_setting(&mut p, "count", "20".to_string(), None).unwrap();
    assert_eq!(p.count(), Some(10));
    update_img2img_setting(&mut p, "cfg", "7.5".to_string(), Some(float(7.5))).unwrap();
    assert_eq!(p.cfg(), Some(float(7.5)));
}

#[test]
fn txt2img_settings_are_taken_as_typed() {
    let mut p = txt2img();
    update_txt2img_setting(&mut p, "width", "1000".to_string(), None).unwrap();
    assert_eq!(p.width(), Some(1000));
    update_txt2img_setting(&mut p, "seed", "-5".to_string(), None).unwrap();
    assert_eq!(p.seed(), Some(-5));
    update_txt2img_setting(&mut p, "negative", "ugly".to_string(), None).unwrap();
    assert_eq!(p.negative_prompt(), Some("ugly".to_string()));
}

#[test]
fn invalid_settings_are_refused() {
    let mut p = txt2img();
    assert_eq!(update_txt2img_setting(&mut p, "steps", "abc".to_string(), None), Err(SettingError::InvalidValue));
    assert_eq!(update_txt2img_setting(&mut p, "cfg", "abc".to_string(), None), Err(SettingError::InvalidValue));
    assert_eq!(update_txt2img_setting(&mut p, "bogus", "1".to_string(), None), Err(SettingError::InvalidSetting));
    assert_eq!(update_img2img_setting(&mut p, "width", "-64".to_string(), None), Err(SettingError::InvalidValue));
    assert_eq!(p, txt2img());
}

#[test]
fn settings_keyboard_in_rows_of_two() {
    let s = Settings {
        steps: Some(20),
        seed: Some(-1),
        batch_size: None,
        n_iter: Some(1),
        cfg_scale: Some(float(7.0)),
        width: Some(512),
        height: Some(512),
        negative_prompt: Some(String::new()),
        denoising_strength: None,
        sampler_index: None,
    };
    let rows = s.keyboard();
    let data: Vec<Vec<String>> = rows.iter().map(|r| r.iter().map(|b| b.data.clone()).collect()).collect();
    assert_eq!(
        data,
        vec![
            vec!["settings_steps", "settings_seed"],
            vec!["settings_count", "settings_cfg"],
            vec!["settings_width", "settings_height"],
            vec!["settings_negative", "settings_back"],
        ]
    );
    assert_eq!(rows[0][0].label, ButtonLabel::Text("Steps: 20".to_string()));
    assert_eq!(rows[0][1].label, ButtonLabel::Text("Seed: -1".to_string()));
    assert_eq!(rows[1][1].label, ButtonLabel::Real("CFG Scale: ".to_string(), float(7.0)));
    assert_eq!(rows[3][1].label, ButtonLabel::Text("Cancel".to_string()));
}

#[test]
fn settings_buttons_are_read() {
    assert!(matches!(settings_button(Some("settings_back")), SettingsButton::Back));
    assert!(matches!(settings_button(Some("settings_steps")), SettingsButton::Select(s) if s == "steps"));
    assert!(matches!(settings_button(Some("rerun")), SettingsButton::Invalid));
    assert!(matches!(settings_button(None), SettingsButton::Invalid));
}

#[test]
fn selecting_a_setting_needs_the_menu() {
    let state = State::Ready { bot_state: BotState::SettingsTxt2Img { selection: None }, txt2img: txt2img(), img2img: img2img() };
    match select_setting(state, "seed".to_string()) {
        Some(State::Ready { bot_state: BotState::SettingsTxt2Img { selection }, .. }) => {
            assert_eq!(selection, Some("seed".to_string()))
        }
        _ => panic!("expected the text-to-image menu"),
    }
    let state = State::Ready { bot_state: BotState::Generate, txt2img: txt2img(), img2img: img2img() };
    assert!(select_setting(state, "seed".to_string()).is_none());
    assert!(select_setting(State::New, "seed".to_string()).is_none());
}

#[test]
fn settings_menu_follows_the_message() {
    let (s, st) = open_settings(ParentKind::Photo, txt2img(), img2img()).unwrap();
    assert_eq!(s.steps, None);
    assert!(matches!(st, State::Ready { bot_state: BotState::SettingsImg2Img { selection: None }, .. }));
    assert!(open_settings(ParentKind::Other, txt2img(), img2img()).is_none());
}

#[test]
fn settings_value_updates_and_returns_to_menu() {
    let (s, st) = txt2img_settings_value(Some("steps".to_string()), txt2img(), img2img(), "33".to_string(), None).unwrap();
    assert_eq!(s.steps, Some(33));
    assert!(matches!(st, State::Ready { bot_state: BotState::SettingsTxt2Img { selection: None }, .. }));
    assert_eq!(
        txt2img_settings_value(Some("steps".to_string()), txt2img(), img2img(), "x".to_string(), None).err(),
        Some(SettingError::InvalidValue)
    );
}

#[test]
fn reply_keyboard_offers_seed() {
    let k = keyboard(42);
    assert_eq!(k.len(), 1);
    let data: Vec<String> = k[0].iter().map(|b| b.data.clone()).collect();
    assert_eq!(data, vec!["rerun", "reuse/42", "settings"]);
    let k = keyboard(-1);
    assert_eq!(k[0][1].data, "reuse/-1");
    assert_eq!(k[0][1].label, ButtonLabel::Text("🎲 Seed".to_string()));
}

#[test]
fn reuse_data_is_read() {
    assert_eq!(reuse_seed("reuse/42"), Some(42));
    assert_eq!(reuse_seed("reuse/-1"), Some(-1));
    assert_eq!(reuse_seed("reuse/x/7"), Some(7));
    assert_eq!(reuse_seed("reuse"), None);
    assert_eq!(reuse_seed("rerun/5"), None);
    for seed in [0i64, 7, -1, i64::MAX, i64::MIN] {
        assert_eq!(reuse_seed(&keyboard(seed)[0][1].data), Some(seed));
    }
}

#[test]
fn reuse_sets_seed_of_the_right_parameters() {
    let o = reuse(ParentKind::Photo, txt2img(), img2img(), 9).unwrap();
    match o.state {
        State::Ready { txt2img: t, img2img: i, bot_state: BotState::Generate } => {
            assert_eq!(i.seed(), Some(9));
            assert_eq!(t.seed(), None);
        }
        _ => panic!("expected a ready chat"),
    }
    assert!(!o.randomized);
    assert!(reuse(ParentKind::Other, txt2img(), img2img(), 9).is_none());
    assert_eq!(reuse_answer(-1), "Seed randomized.");
    assert_eq!(reuse_answer(12), "Seed set to 12.");
}

#[test]
fn rerun_and_help_decisions() {
    assert_eq!(rerun_action(ParentKind::Photo), RerunAction::Image);
    assert_eq!(rerun_action(ParentKind::Text), RerunAction::Prompt);
    assert_eq!(rerun_action(ParentKind::Other), RerunAction::Unavailable);
    assert_eq!(help_text(true, true), HelpText::Full);
    assert_eq!(help_text(false, true), HelpText::Group);
    assert_eq!(help_text(false, false), HelpText::Basic);
}

#[test]
fn offered_seed_and_photos() {
    assert_eq!(reply_seed(Some(5), Some(5)), -1);
    assert_eq!(reply_seed(Some(5), Some(-1)), 5);
    assert_eq!(reply_seed(None, Some(-1)), -1);
    assert!(matches!(Photo::album(vec![vec![1]]), Photo::Single(p) if p == vec![1]));
    assert!(matches!(Photo::album(vec![vec![1], vec![2]]), Photo::Album(a) if a.len() == 2));
    let r = Reply::new(MessageText { parts: vec![] }, vec![vec![1]], 3, 10);
    assert_eq!(r.seed, 3);
    assert!(matches!(r.images, Photo::Single(_)));
}

fn render(m: &MessageText) -> String {
    m.parts
        .iter()
        .map(|p| match p {
            TextPart::Text(t) => t.clone(),
            TextPart::Number(v) => format!("{}", f64::from_bits(v.bits) as f32),
        })
        .collect()
}

#[test]
fn caption_of_a_workflow_image() {
    let m = MessageText::new_with_image_params("a_cat.", &ImageParams::Comfy(Prompt::new()));
    assert_eq!(render(&m), "`a\\_cat\\.`\n\n");
    assert_eq!(MessageText::from_params(&ImageParams::Comfy(Prompt::new())).err(), Some(CaptionError::NoPrompt));
}

#[test]
fn access_follows_the_allow_list() {
    let cfg = ConfigParameters { allowed_users: vec![1, 2], txt2img_api: (), img2img_api: (), allow_all_users: false };
    assert!(cfg.chat_is_allowed(1));
    assert!(!cfg.chat_is_allowed(3));
    assert!(auth_filter(&cfg, Some(3), Some(2)));
    assert!(!auth_filter(&cfg, None, Some(3)));
    let all = ConfigParameters { allowed_users: vec![], txt2img_api: (), img2img_api: (), allow_all_users: true };
    assert!(all.chat_is_allowed(99));
}

#[test]
fn comfy_bot_needs_a_workflow() {
    let b = StableDiffusionBotBuilder::new("k".to_string(), vec![1, 1, 2], "u".to_string(), ApiType::ComfyUI, false);
    assert_eq!(b.build(None).err(), Some(BotBuildError::NoComfyUiPrompt));
    let b = StableDiffusionBotBuilder::new("k".to_string(), vec![1, 1, 2], "u".to_string(), ApiType::ComfyUI, false);
    let bot = b.build(Some(Prompt::new())).unwrap();
    assert_eq!(bot.config.allowed_users, vec![1, 2]);
    assert!(matches!(bot.config.txt2img_api, Backend::Comfy(_)));
    let state = state_or_default(&bot.config, None);
    assert!(matches!(state, State::Ready { bot_state: BotState::Generate, .. }));
    let web = StableDiffusionWebUiApi::new();
    assert_eq!(web.txt2img_defaults, Default::default());
}

fn generating_state() -> State {
    State::new_with_defaults(txt2img(), img2img())
}

fn settings_state() -> State {
    State::Ready {
        bot_state: BotState::SettingsTxt2Img { selection: None },
        txt2img: txt2img(),
        img2img: img2img(),
    }
}

#[test]
fn messages_are_routed_by_command_and_state() {
    let ready = generating_state();
    let menu = settings_state();
    assert_eq!(
        route_message(Some(Command::Public(PublicCommand::Help)), Some("/help"), false, false, false, &ready),
        MessageRoute::Public(PublicCommand::Help)
    );
    assert_eq!(route_message(None, Some("a cat"), false, false, false, &ready), MessageRoute::Ignore);
    assert_eq!(
        route_message(Some(Command::Img2ImgSettings), Some("/img2imgsettings"), false, false, true, &ready),
        MessageRoute::OpenSettings(ParentKind::Photo)
    );
    assert_eq!(route_message(None, Some("20"), false, false, true, &menu), MessageRoute::SettingsValue);
    assert_eq!(route_message(None, None, true, false, true, &menu), MessageRoute::InvalidSettingsValue);
    assert_eq!(
        route_message(Some(Command::Gen("a dog".to_string())), Some("/gen a dog"), false, false, true, &ready),
        MessageRoute::Prompt("a dog".to_string())
    );
    assert_eq!(route_message(None, Some("/unknown"), false, false, true, &ready), MessageRoute::UnknownCommand);
    assert_eq!(
        route_message(None, Some("a cat"), false, false, true, &ready),
        MessageRoute::Prompt("a cat".to_string())
    );
    assert_eq!(route_message(None, None, true, true, true, &ready), MessageRoute::Image);
    assert_eq!(route_message(None, None, true, false, true, &ready), MessageRoute::Ignore);
    assert_eq!(route_message(None, Some("a cat"), false, false, true, &State::New), MessageRoute::Ignore);
}

#[test]
fn button_presses_are_routed_by_data_and_state() {
    let ready = generating_state();
    let menu = settings_state();
    assert_eq!(route_callback(Some("settings"), true, &ready), CallbackRoute::OpenSettings);
    assert_eq!(route_callback(Some("settings_steps"), true, &menu), CallbackRoute::SettingsButton);
    assert_eq!(route_callback(Some("settings"), false, &ready), CallbackRoute::Ignore);
    assert_eq!(route_callback(Some("reuse/42"), true, &ready), CallbackRoute::Reuse(42));
    assert_eq!(route_callback(Some("reuse/-1"), true, &ready), CallbackRoute::Reuse(-1));
    assert_eq!(route_callback(Some("rerun"), true, &ready), CallbackRoute::Rerun);
    assert_eq!(route_callback(Some("rerun"), true, &menu), CallbackRoute::Ignore);
    assert_eq!(route_callback(Some("reuse/x"), true, &ready), CallbackRoute::Ignore);
    assert_eq!(route_callback(None, true, &ready), CallbackRoute::Ignore);
}
