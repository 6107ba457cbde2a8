use stable_diffusion_bot::float_bits::FloatBits;
use stable_diffusion_bot::params::api::{
    choose_seed, ComfyPromptApi, Img2ImgApiError, StableDiffusionWebUiApi, Txt2ImgApiError,
};
use stable_diffusion_bot::params::gen_params::{ComfyParams, GenParams, Img2ImgParams, Txt2ImgParams};
use stable_diffusion_bot::params::image_params::ImageParams;
use stable_diffusion_bot::sdapi::img2img::Img2ImgRequest;
use stable_diffusion_bot::sdapi::response::{ApiError, ImgResponse};
use stable_diffusion_bot::sdapi::txt2img::Txt2ImgRequest;
use stable_diffusion_bot::workflow::prompt::Prompt;

fn float(v: f64) -> FloatBits {
    FloatBits { bits: v.to_bits() }
}

#[test]
fn merge_prefers_request_settings() {
    let base = Txt2ImgRequest { steps: Some(20), width: Some(512), prompt: Some("a".to_string()), ..Default::default() };
    let request = Txt2ImgRequest { steps: Some(30), cfg_scale: Some(float(7.5)), ..Default::default() };
    let merged = base.merge(request);
    assert_eq!(merged.steps, Some(30));
    assert_eq!(merged.width, Some(512));
    assert_eq!(merged.prompt, Some("a".to_string()));
    assert_eq!(merged.cfg_scale, Some(float(7.5)));
}

#[test]
fn merge_with_empty_request_keeps_base() {
    let base = Img2ImgRequest {
        styles: Some(vec!["s".to_string()]),
        seed: Some(3),
        ..Default::default()
    };
    assert_eq!(base.merge(Img2ImgRequest::default()), base);
    assert_eq!(Img2ImgRequest::default().merge(base.clone()), base);
}

#[test]
fn merge_is_associative_on_example() {
    let a = Txt2ImgRequest { steps: Some(1), width: Some(2), ..Default::default() };
    let b = Txt2ImgRequest { width: Some(3), height: Some(4), ..Default::default() };
    let c = Txt2ImgRequest { height: Some(5), seed: Some(6), ..Default::default() };
    assert_eq!(a.merge(b.clone()).merge(c.clone()), a.merge(b.merge(c)));
}

#[test]
fn builders_set_fields() {
    let mut r = Txt2ImgRequest::default();
    r.with_prompt("p".to_string()).with_seed(5).with_style("x".to_string()).with_style("y".to_string());
    assert_eq!(r.prompt, Some("p".to_string()));
    assert_eq!(r.seed, Some(5));
    assert_eq!(r.styles, Some(vec!["x".to_string(), "y".to_string()]));
}

#[test]
fn images_are_base64_encoded() {
    let mut r = Img2ImgRequest::default();
    r.with_image(b"hello");
    r.with_images(vec![b"hi".to_vec()]);
    assert_eq!(r.init_images, Some(vec!["aGVsbG8=".to_string(), "aGk=".to_string()]));
}

#[test]
fn response_images_decode() {
    let ok = ImgResponse { images: vec!["aGVsbG8=".to_string()], parameters: (), info: String::new() };
    assert_eq!(ok.images().unwrap(), vec![b"hello".to_vec()]);
    let bad = ImgResponse { images: vec!["aGVsbG8=".to_string(), "!!".to_string()], parameters: (), info: String::new() };
    assert!(matches!(bad.images(), Err(ApiError::DecodeError(_))));
}

#[test]
fn img2img_params_image_round_trip() {
    let mut p = Img2ImgParams::default();
    assert_eq!(p.image(), None);
    p.set_image(Some(b"first".to_vec()));
    p.set_image(Some(b"second".to_vec()));
    assert_eq!(p.image(), Some(b"second".to_vec()));
    p.set_image(None);
    assert_eq!(p.user_params.init_images, None);
    p.user_params.init_images = Some(vec!["not base64!".to_string(), "aGk=".to_string()]);
    assert_eq!(p.image(), None);
}

#[test]
fn user_parameters_win_over_defaults() {
    let p = Txt2ImgParams {
        user_params: Txt2ImgRequest { steps: Some(10), ..Default::default() },
        defaults: Some(Txt2ImgRequest { steps: Some(20), width: Some(512), n_iter: Some(2), ..Default::default() }),
    };
    assert_eq!(p.steps(), Some(10));
    assert_eq!(p.width(), Some(512));
    assert_eq!(p.count(), Some(2));
    assert_eq!(p.height(), None);
}

#[test]
fn gen_params_setters_then_getters() {
    let mut g = GenParams::Txt2Img(Txt2ImgParams::default());
    g.set_seed(11);
    g.set_count(3);
    g.set_negative_prompt("n".to_string());
    assert_eq!(g.seed(), Some(11));
    assert_eq!(g.count(), Some(3));
    assert_eq!(g.negative_prompt(), Some("n".to_string()));
    let mut c = GenParams::Comfy(ComfyParams::with_prompt(Prompt::new()));
    c.set_steps(9);
    assert_eq!(c.steps(), Some(9));
    assert_eq!(c.count(), Some(1));
}

#[test]
fn conversions_between_parameters() {
    let mut g = GenParams::Txt2Img(Txt2ImgParams::default());
    g.set_width(768);
    g.set_prompt("cat".to_string());
    let c = ComfyParams::from_params(&g);
    assert_eq!(c.width, Some(768));
    assert_eq!(c.prompt_text, Some("cat".to_string()));
    assert_eq!(c.count, 1);
    let i = Img2ImgParams::from_params(&g);
    assert_eq!(i.user_params.width, Some(768));
    assert_eq!(i.user_params.prompt, Some("cat".to_string()));
    let t = Txt2ImgParams::from_params(&GenParams::Img2Img(i));
    assert_eq!(t.user_params.width, Some(768));
}

#[test]
fn seed_minus_one_draws_a_random_seed() {
    assert_eq!(choose_seed(Some(-1), -5), Some(5));
    assert_eq!(choose_seed(Some(-1), 8), Some(8));
    assert_eq!(choose_seed(Some(-1), i64::MIN), Some(i64::MIN));
    assert_eq!(choose_seed(Some(3), -5), Some(3));
    assert_eq!(choose_seed(None, -5), None);
}

#[test]
fn comfy_requests_without_workflow_fail() {
    let api = ComfyPromptApi {
        params: ComfyParams::from_params(&GenParams::Txt2Img(Txt2ImgParams::default())),
        output_node: None,
        prompt_node: None,
    };
    let config = GenParams::Txt2Img(Txt2ImgParams::default());
    assert!(matches!(api.txt2img_prompt(&config), Err(Txt2ImgApiError::EmptyPrompt)));
    assert!(matches!(api.img2img_image(&config), Err(Img2ImgApiError::NoImage)));
    assert!(matches!(
        api.img2img_prompt_with(&config, 0, "img.png".to_string()),
        Err(Img2ImgApiError::EmptyPrompt)
    ));
}

#[test]
fn comfy_requests_apply_parameters() {
    let api = ComfyPromptApi::new(Prompt::new());
    let config = GenParams::Comfy(ComfyParams::with_prompt(Prompt::new()));
    let (prompt, base) = api.txt2img_prompt_with(&config, 4).unwrap();
    assert_eq!(prompt, Prompt::new());
    assert_eq!(base.seed, Some(-1));
    // No LoadImage node to write the uploaded image's name into.
    assert!(matches!(
        api.img2img_prompt_with(&config, 4, "img.png".to_string()),
        Err(Img2ImgApiError::Img2Img(_))
    ));
    match api.gen_params(Some(&GenParams::Txt2Img(Txt2ImgParams::default()))) {
        GenParams::Comfy(c) => {
            assert_eq!(c.prompt, Some(Prompt::new()));
            assert_eq!(c.count, 1);
        }
        _ => panic!("expected ComfyUI parameters"),
    }
}

#[test]
fn web_ui_offers_text_to_image_parameters() {
    let api = StableDiffusionWebUiApi {
        txt2img_defaults: Txt2ImgRequest { steps: Some(25), ..Default::default() },
        img2img_defaults: Img2ImgRequest::default(),
    };
    match api.gen_params(None) {
        GenParams::Txt2Img(t) => {
            assert_eq!(t.user_params, Txt2ImgRequest::default());
            assert_eq!(t.steps(), Some(25));
        }
        _ => panic!("expected text-to-image parameters"),
    }
}

#[test]
fn image_params_of_a_workflow() {
    let p = ImageParams::Comfy(Prompt::new());
    assert_eq!(p.seed(), None);
    assert_eq!(p.prompt(), None);
}

#[test]
fn styles_are_added_to_those_held() {
    let mut t = Txt2ImgRequest::default();
    t.with_styles(vec!["a".to_string()]).with_styles(vec!["b".to_string(), "c".to_string()]);
    assert_eq!(t.styles, Some(vec!["a".to_string(), "b".to_string(), "c".to_string()]));
    let mut i = Img2ImgRequest::default();
    i.with_style("a".to_string()).with_styles(vec!["b".to_string()]);
    assert_eq!(i.styles, Some(vec!["a".to_string(), "b".to_string()]));
}

#[test]
fn web_ui_offers_image_to_image_parameters() {
    let api = StableDiffusionWebUiApi {
        txt2img_defaults: Txt2ImgRequest { steps: Some(25), ..Default::default() },
        img2img_defaults: Img2ImgRequest { steps: Some(30), ..Default::default() },
    };
    match api.img2img_gen_params(None) {
        GenParams::Img2Img(i) => {
            assert_eq!(i.user_params, Img2ImgRequest::default());
            assert_eq!(i.defaults, Some(Img2ImgRequest { steps: Some(30), ..Default::default() }));
            assert_eq!(i.steps(), Some(30));
        }
        _ => panic!("expected image-to-image parameters"),
    }
    let user = GenParams::Img2Img(Img2ImgParams {
        user_params: Img2ImgRequest { seed: Some(7), ..Default::default() },
        defaults: None,
    });
    match api.img2img_gen_params(Some(&user)) {
        GenParams::Img2Img(i) => {
            assert_eq!(i.user_params.seed, Some(7));
            assert_eq!(i.steps(), Some(30));
        }
        _ => panic!("expected image-to-image parameters"),
    }
}
