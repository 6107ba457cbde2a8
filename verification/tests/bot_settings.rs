use stable_diffusion_bot::bot::config::{
    map_settings, ApiType, Backend, ConfigParameters, Img2ImgApi, StableDiffusionBotBuilder,
    Txt2ImgApi,
};
use stable_diffusion_bot::bot::state::{
    filter_map_settings_state, filter_settings_query, filter_settings_state, BotState, State,
};
use stable_diffusion_bot::params::gen_params::{GenParams, Img2ImgParams, Txt2ImgParams};
use stable_diffusion_bot::sdapi::img2img::Img2ImgRequest;
use stable_diffusion_bot::sdapi::txt2img::Txt2ImgRequest;
use std::collections::HashSet;

fn ready(bot_state: BotState) -> State {
    State::Ready {
        bot_state,
        txt2img: GenParams::Txt2Img(Txt2ImgParams::default()),
        img2img: GenParams::Img2Img(Img2ImgParams::default()),
    }
}

#[test]
fn test_filter_settings_query() {
    assert!(filter_settings_query(Some("settings")));
}

#[test]
fn test_filter_settings_query_none() {
    assert!(!filter_settings_query(None));
}

#[test]
fn test_filter_settings_query_bad_data() {
    assert!(!filter_settings_query(Some("bad_data")));
}

#[test]
fn test_filter_settings_state_txt2img() {
    assert!(filter_settings_state(&ready(BotState::SettingsTxt2Img { selection: None })));
}

#[test]
fn test_filter_settings_state_img2img() {
    assert!(filter_settings_state(&ready(BotState::SettingsImg2Img { selection: None })));
}

#[test]
fn test_filter_settings_state() {
    assert!(!filter_settings_state(&State::New));
}

#[test]
fn test_filter_map_settings_state_txt2img() {
    assert!(filter_map_settings_state(ready(BotState::SettingsTxt2Img { selection: None })).is_some());
}

#[test]
fn test_filter_map_settings_state_img2img() {
    assert!(filter_map_settings_state(ready(BotState::SettingsImg2Img { selection: None })).is_some());
}

#[test]
fn test_filter_map_settings_state() {
    assert!(filter_map_settings_state(State::New).is_none());
}

#[derive(Debug, Clone, Default)]
struct MockApi;

impl Txt2ImgApi for MockApi {
    fn gen_params(&self, _user_params: Option<&GenParams>) -> GenParams {
        GenParams::Txt2Img(Txt2ImgParams::default())
    }
}

impl Img2ImgApi for MockApi {
    fn gen_params(&self, _user_params: Option<&GenParams>) -> GenParams {
        GenParams::Img2Img(Img2ImgParams::default())
    }
}

fn mock_config() -> ConfigParameters<MockApi, MockApi> {
    ConfigParameters {
        txt2img_api: MockApi,
        img2img_api: MockApi,
        allowed_users: Default::default(),
        allow_all_users: false,
    }
}

#[test]
fn test_map_settings_default() {
    let (txt2img, img2img) = map_settings(&mock_config(), State::New);
    assert!(
        (txt2img, img2img)
            == (
                GenParams::Txt2Img(Txt2ImgParams::default()),
                GenParams::Img2Img(Img2ImgParams::default())
            )
    );
}

#[test]
fn test_map_settings_ready() {
    let txt2img = Txt2ImgParams {
        user_params: Txt2ImgRequest {
            negative_prompt: Some("test".to_string()),
            ..Txt2ImgRequest::default()
        },
        defaults: Some(Txt2ImgRequest::default()),
    };
    let img2img = Img2ImgParams {
        user_params: Img2ImgRequest {
            negative_prompt: Some("test".to_string()),
            ..Img2ImgRequest::default()
        },
        defaults: Some(Img2ImgRequest::default()),
    };
    let (t, i) = map_settings(
        &mock_config(),
        State::Ready {
            bot_state: BotState::Generate,
            txt2img: GenParams::Txt2Img(txt2img),
            img2img: GenParams::Img2Img(img2img),
        },
    );
    assert!(
        (t, i)
            == (
                GenParams::Txt2Img(Txt2ImgParams {
                    user_params: Txt2ImgRequest {
                        negative_prompt: Some("test".to_string()),
                        ..Txt2ImgRequest::default()
                    },
                    defaults: Some(Txt2ImgRequest::default()),
                }),
                GenParams::Img2Img(Img2ImgParams {
                    user_params: Img2ImgRequest {
                        negative_prompt: Some("test".to_string()),
                        ..Img2ImgRequest::default()
                    },
                    defaults: Some(Img2ImgRequest::default()),
                })
            )
    );
}

#[test]
fn test_stable_diffusion_bot_builder() {
    let api_key = "api_key".to_string();
    let sd_api_url = "http://localhost:7860".to_string();
    let allowed_users = vec![1, 2, 3];
    let allow_all_users = false;
    let api_type = ApiType::StableDiffusionWebUi;

    let builder =
        StableDiffusionBotBuilder::new(api_key, allowed_users, sd_api_url, api_type, allow_all_users);

    let bot = builder
        .db_path(Some("database.sqlite".to_string()))
        .build(None)
        .unwrap();

    assert_eq!(bot.config.allowed_users.len(), 3);
    assert!(!bot.config.allow_all_users);
}

fn webui(b: &Backend) -> &stable_diffusion_bot::params::api::StableDiffusionWebUiApi {
    match b {
        Backend::WebUi(api) => api,
        Backend::Comfy(_) => panic!("not the web UI back end"),
    }
}

#[test]
fn test_stable_diffusion_bot_user_defaults() {
    let api_key = "api_key".to_string();
    let sd_api_url = "http://localhost:7860".to_string();
    let allowed_users = vec![1, 2, 3];
    let allow_all_users = false;
    let api_type = ApiType::StableDiffusionWebUi;

    let txt2img_settings = Txt2ImgRequest {
        width: Some(1024),
        height: Some(768),
        ..Default::default()
    };
    let img2img_settings = Img2ImgRequest {
        width: Some(1024),
        height: Some(768),
        ..Default::default()
    };

    let builder = StableDiffusionBotBuilder::new(
        api_key.clone(),
        allowed_users.clone(),
        sd_api_url.clone(),
        api_type,
        allow_all_users,
    );

    let bot = builder
        .txt2img_defaults(txt2img_settings.clone())
        .img2img_defaults(img2img_settings.clone())
        .build(None)
        .unwrap();

    assert_eq!(
        bot.config.allowed_users.iter().copied().collect::<HashSet<i64>>(),
        allowed_users.into_iter().collect::<HashSet<i64>>()
    );
    assert_eq!(bot.config.allow_all_users, allow_all_users);
    assert_eq!(webui(&bot.config.txt2img_api).txt2img_defaults, txt2img_settings);
    assert_eq!(webui(&bot.config.img2img_api).img2img_defaults, img2img_settings);
}

#[test]
fn test_stable_diffusion_bot_no_user_defaults() {
    let api_key = "api_key".to_string();
    let sd_api_url = "http://localhost:7860".to_string();
    let allowed_users = vec![1, 2, 3];
    let allow_all_users = false;
    let api_type = ApiType::StableDiffusionWebUi;

    let builder = StableDiffusionBotBuilder::new(
        api_key.clone(),
        allowed_users.clone(),
        sd_api_url.clone(),
        api_type,
        allow_all_users,
    );

    let bot = builder
        .txt2img_defaults(Txt2ImgRequest {
            width: Some(1024),
            height: Some(768),
            ..Default::default()
        })
        .img2img_defaults(Img2ImgRequest {
            width: Some(1024),
            height: Some(768),
            ..Default::default()
        })
        .clear_txt2img_defaults()
        .clear_img2img_defaults()
        .build(None)
        .unwrap();

    assert_eq!(
        bot.config.allowed_users.iter().copied().collect::<HashSet<i64>>(),
        allowed_users.into_iter().collect::<HashSet<i64>>()
    );
    assert_eq!(bot.config.allow_all_users, allow_all_users);
    assert_eq!(webui(&bot.config.txt2img_api).txt2img_defaults, Txt2ImgRequest::default());
    assert_eq!(webui(&bot.config.img2img_api).img2img_defaults, Img2ImgRequest::default());
}
