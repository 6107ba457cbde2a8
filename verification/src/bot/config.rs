use vstd::prelude::*;

use crate::bot::state::State;
use crate::params::api::{ComfyPromptApi, StableDiffusionWebUiApi};
use crate::params::gen_params::{ComfyParams, GenParams};
use crate::sdapi::common::clone_opt_string;
use crate::sdapi::img2img::Img2ImgRequest;
use crate::sdapi::txt2img::Txt2ImgRequest;
use crate::workflow::prompt::Prompt;
use vstd::seq_lib::lemma_seq_contains_after_push;

verus! {

/// A text-to-image back end, as far as the bot's settings go.
pub trait Txt2ImgApi {
    /// Whether `r` is what the back end offers a user with settings
    /// `user_settings`; a back end that does not say promises nothing.
    open spec fn offers(&self, user_settings: Option<&GenParams>, r: GenParams) -> bool {
        true
    }

    /// The generation parameters to offer a user, from the user's settings
    /// if there are any.
    fn gen_params(&self, user_settings: Option<&GenParams>) -> (r: GenParams)
        ensures
            self.offers(user_settings, r),
    ;
}

/// An image-to-image back end, as far as the bot's settings go.
pub trait Img2ImgApi {
    /// Whether `r` is what the back end offers a user with settings
    /// `user_settings`; a back end that does not say promises nothing.
    open spec fn offers(&self, user_settings: Option<&GenParams>, r: GenParams) -> bool {
        true
    }

    /// The generation parameters to offer a user, from the user's settings
    /// if there are any.
    fn gen_params(&self, user_settings: Option<&GenParams>) -> (r: GenParams)
        ensures
            self.offers(user_settings, r),
    ;
}

impl Txt2ImgApi for ComfyPromptApi {
    open spec fn offers(&self, user_settings: Option<&GenParams>, r: GenParams) -> bool {
        self.offered(user_settings, r)
    }

    fn gen_params(&self, user_settings: Option<&GenParams>) -> (r: GenParams) {
        ComfyPromptApi::gen_params(self, user_settings)
    }
}

impl Img2ImgApi for ComfyPromptApi {
    open spec fn offers(&self, user_settings: Option<&GenParams>, r: GenParams) -> bool {
        self.offered(user_settings, r)
    }

    fn gen_params(&self, user_settings: Option<&GenParams>) -> (r: GenParams) {
        ComfyPromptApi::gen_params(self, user_settings)
    }
}

impl Txt2ImgApi for StableDiffusionWebUiApi {
    open spec fn offers(&self, user_settings: Option<&GenParams>, r: GenParams) -> bool {
        self.offered(user_settings, r)
    }

    fn gen_params(&self, user_settings: Option<&GenParams>) -> (r: GenParams) {
        StableDiffusionWebUiApi::gen_params(self, user_settings)
    }
}

impl Img2ImgApi for StableDiffusionWebUiApi {
    open spec fn offers(&self, user_settings: Option<&GenParams>, r: GenParams) -> bool {
        self.img2img_offered(user_settings, r)
    }

    fn gen_params(&self, user_settings: Option<&GenParams>) -> (r: GenParams) {
        StableDiffusionWebUiApi::img2img_gen_params(self, user_settings)
    }
}

/// The back end a bot generates images with.
#[derive(Debug, PartialEq)]
pub enum Backend {
    /// The ComfyUI back end.
    Comfy(ComfyPromptApi),
    /// The Stable Diffusion web UI back end.
    WebUi(StableDiffusionWebUiApi),
}

impl Backend {
    /// Whether `r` is what the back end offers a user with settings
    /// `user_settings` for text-to-image generation.
    pub open spec fn offered(self, user_settings: Option<&GenParams>, r: GenParams) -> bool {
        match self {
            Backend::Comfy(api) => api.offered(user_settings, r),
            Backend::WebUi(api) => api.offered(user_settings, r),
        }
    }

    /// Whether `r` is what the back end offers a user with settings
    /// `user_settings` for image-to-image generation.
    pub open spec fn img2img_offered(self, user_settings: Option<&GenParams>, r: GenParams) -> bool {
        match self {
            Backend::Comfy(api) => api.offered(user_settings, r),
            Backend::WebUi(api) => api.img2img_offered(user_settings, r),
        }
    }
}

impl Txt2ImgApi for Backend {
    open spec fn offers(&self, user_settings: Option<&GenParams>, r: GenParams) -> bool {
        self.offered(user_settings, r)
    }

    fn gen_params(&self, user_settings: Option<&GenParams>) -> (r: GenParams) {
        match self {
            Backend::Comfy(api) => ComfyPromptApi::gen_params(api, user_settings),
            Backend::WebUi(api) => StableDiffusionWebUiApi::gen_params(api, user_settings),
        }
    }
}

impl Img2ImgApi for Backend {
    open spec fn offers(&self, user_settings: Option<&GenParams>, r: GenParams) -> bool {
        self.img2img_offered(user_settings, r)
    }

    fn gen_params(&self, user_settings: Option<&GenParams>) -> (r: GenParams) {
        match self {
            Backend::Comfy(api) => ComfyPromptApi::gen_params(api, user_settings),
            Backend::WebUi(api) => StableDiffusionWebUiApi::img2img_gen_params(api, user_settings),
        }
    }
}

/// The configuration a bot runs with.
#[derive(Debug, PartialEq)]
pub struct ConfigParameters<T, I> {
    /// The chats allowed to use the bot; no id occurs twice.
    pub allowed_users: Vec<i64>,
    /// The text-to-image back end.
    pub txt2img_api: T,
    /// The image-to-image back end.
    pub img2img_api: I,
    /// Whether every chat may use the bot.
    pub allow_all_users: bool,
}

impl<T, I> ConfigParameters<T, I> {
    /// Whether chat `chat_id` may use the bot.
    pub open spec fn allows(self, chat_id: i64) -> bool {
        self.allow_all_users || self.allowed_users@.contains(chat_id)
    }

    /// Checks whether a chat is allowed by the config.
    pub fn chat_is_allowed(&self, chat_id: i64) -> (r: bool)
        ensures
            r == self.allows(chat_id),
    {
        if self.allow_all_users {
            return true;
        }
        let mut i: usize = 0;
        while i < self.allowed_users.len()
            invariant
                i <= self.allowed_users.len(),
                forall|j: int| 0 <= j < i ==> self.allowed_users@[j] != chat_id,
            decreases self.allowed_users.len() - i,
        {
            if self.allowed_users[i] == chat_id {
                return true;
            }
            i += 1;
        }
        false
    }
}

/// Whether an update, from its chat and its user, may use the bot: either
/// is allowed.
pub fn auth_filter<T, I>(cfg: &ConfigParameters<T, I>, chat: Option<i64>, user: Option<i64>) -> (r: bool)
    ensures
        r == ((chat matches Some(c) && cfg.allows(c)) || (user matches Some(u) && cfg.allows(u))),
{
    let by_chat = match chat {
        Some(c) => cfg.chat_is_allowed(c),
        None => false,
    };
    let by_user = match user {
        Some(u) => cfg.chat_is_allowed(u),
        None => false,
    };
    by_chat || by_user
}

/// The generation parameters of a chat: its own when it is ready, else the
/// back ends' defaults.
pub fn map_settings<T: Txt2ImgApi, I: Img2ImgApi>(cfg: &ConfigParameters<T, I>, state: State) -> (r: (GenParams, GenParams))
    ensures
        state matches State::Ready { txt2img, img2img, .. } ==> r == (txt2img, img2img),
        state is New ==> cfg.txt2img_api.offers(None, r.0) && cfg.img2img_api.offers(None, r.1),
{
    match state {
        State::Ready { txt2img, img2img, .. } => (txt2img, img2img),
        State::New => (
            Txt2ImgApi::gen_params(&cfg.txt2img_api, None),
            Img2ImgApi::gen_params(&cfg.img2img_api, None),
        ),
    }
}

/// The state of a chat: the stored one, or else a ready chat with the back
/// ends' defaults.
pub fn state_or_default<T: Txt2ImgApi, I: Img2ImgApi>(cfg: &ConfigParameters<T, I>, stored: Option<State>) -> (r: State)
    ensures
        stored matches Some(s) ==> r == s,
        stored is None ==> (r matches State::Ready { bot_state: crate::bot::state::BotState::Generate, txt2img, img2img }
            && cfg.txt2img_api.offers(None, txt2img) && cfg.img2img_api.offers(None, img2img)),
{
    match stored {
        Some(s) => s,
        None => State::new_with_defaults(
            Txt2ImgApi::gen_params(&cfg.txt2img_api, None),
            Img2ImgApi::gen_params(&cfg.img2img_api, None),
        ),
    }
}

/// The text-to-image defaults after `request` is set over the defaults
/// `before` (none set counting as a request that sets nothing).
pub open spec fn txt2img_defaults_after(before: Option<Txt2ImgRequest>, request: Txt2ImgRequest) -> Txt2ImgRequest {
    match before {
        Some(old) => old,
        None => Txt2ImgRequest::spec_default(),
    }.merged(request)
}

/// The image-to-image defaults after `request` is set over the defaults
/// `before`.
pub open spec fn img2img_defaults_after(before: Option<Img2ImgRequest>, request: Img2ImgRequest) -> Img2ImgRequest {
    match before {
        Some(old) => old,
        None => Img2ImgRequest::spec_default(),
    }.merged(request)
}

/// The kind of back end to use.
#[derive(Debug, Clone, Copy, PartialEq, Eq, Structural)]
pub enum ApiType {
    /// The ComfyUI back end.
    ComfyUI,
    /// The Stable Diffusion web UI back end.
    StableDiffusionWebUi,
}

impl Default for ApiType {
    fn default() -> (r: Self)
        ensures
            r == ApiType::StableDiffusionWebUi,
    {
        ApiType::StableDiffusionWebUi
    }
}

/// Why a bot could not be built.
#[derive(Debug, Clone, Copy, PartialEq, Eq, Structural)]
pub enum BotBuildError {
    /// The ComfyUI back end was chosen without a workflow.
    NoComfyUiPrompt,
}

/// A bot ready to run: what the program needs to connect it.
#[derive(Debug, PartialEq)]
pub struct StableDiffusionBot {
    /// The Telegram API key.
    pub api_key: String,
    /// The path of the storage database, if any.
    pub db_path: Option<String>,
    /// The URL of the Stable Diffusion web UI.
    pub sd_api_url: String,
    /// The configuration the bot runs with.
    pub config: ConfigParameters<Backend, Backend>,
}

/// Struct that builds a StableDiffusionBot instance.
#[derive(Debug, PartialEq)]
pub struct StableDiffusionBotBuilder {
    /// The Telegram API key.
    pub api_key: String,
    /// The chats allowed to use the bot.
    pub allowed_users: Vec<i64>,
    /// The path of the storage database, if any.
    pub db_path: Option<String>,
    /// The URL of the Stable Diffusion web UI.
    pub sd_api_url: String,
    /// The kind of back end.
    pub api_type: ApiType,
    /// Default parameters for text-to-image generation.
    pub txt2img_defaults: Option<Txt2ImgRequest>,
    /// Default parameters for image-to-image generation.
    pub img2img_defaults: Option<Img2ImgRequest>,
    /// The path of the ComfyUI workflow file, if any.
    pub comfyui_prompt_file: Option<String>,
    /// Whether every chat may use the bot.
    pub allow_all_users: bool,
}

/// Whether `x` is one of `v`.
fn contains_id(v: &Vec<i64>, x: i64) -> (r: bool)
    ensures
        r == v@.contains(x),
{
    let mut j: usize = 0;
    while j < v.len()
        invariant
            j <= v.len(),
            forall|k: int| 0 <= k < j ==> v@[k] != x,
        decreases v.len() - j,
    {
        if v[j] == x {
            assert(v@[j as int] == x);
            return true;
        }
        j += 1;
    }
    false
}

/// `v` without repeated ids, each id kept at its first position.
fn dedup(v: &Vec<i64>) -> (r: Vec<i64>)
    ensures
        r@.no_duplicates(),
        forall|x: i64| r@.contains(x) <==> v@.contains(x),
{
    let mut r: Vec<i64> = Vec::new();
    let mut i: usize = 0;
    while i < v.len()
        invariant
            i <= v.len(),
            r@.no_duplicates(),
            forall|x: i64| r@.contains(x) <==> v@.take(i as int).contains(x),
        decreases v.len() - i,
    {
        let x = v[i];
        let ghost pre = v@.take(i as int);
        assert(v@.take(i + 1) =~= pre.push(x));
        let ghost before = r@;
        if !contains_id(&r, x) {
            r.push(x);
            assert forall|a: int, b: int| 0 <= a < b < r@.len() implies r@[a] != r@[b] by {
                if b == r@.len() - 1 {
                    assert(before.contains(before[a]));
                }
            }
            assert forall|y: i64| r@.contains(y) <==> v@.take(i + 1).contains(y) by {
                lemma_seq_contains_after_push(before, x, y);
                lemma_seq_contains_after_push(pre, x, y);
            }
        } else {
            assert forall|y: i64| r@.contains(y) <==> v@.take(i + 1).contains(y) by {
                lemma_seq_contains_after_push(pre, x, y);
            }
        }
        i += 1;
    }
    assert(v@.take(i as int) =~= v@);
    r
}

fn clone_comfy_api(api: &ComfyPromptApi) -> (r: ComfyPromptApi)
    ensures
        r.params.same(api.params),
        r.output_node == api.output_node,
        r.prompt_node == api.prompt_node,
{
    ComfyPromptApi {
        params: api.params.clone(),
        output_node: clone_opt_string(&api.output_node),
        prompt_node: clone_opt_string(&api.prompt_node),
    }
}

fn request_or_default(r: &Option<Txt2ImgRequest>) -> (d: Txt2ImgRequest)
    ensures
        match r {
            Some(x) => d.same(*x),
            None => d == Txt2ImgRequest::spec_default(),
        },
{
    match r {
        Some(x) => x.clone(),
        None => Txt2ImgRequest::default(),
    }
}

fn img_request_or_default(r: &Option<Img2ImgRequest>) -> (d: Img2ImgRequest)
    ensures
        match r {
            Some(x) => d.same(*x),
            None => d == Img2ImgRequest::spec_default(),
        },
{
    match r {
        Some(x) => x.clone(),
        None => Img2ImgRequest::default(),
    }
}

impl StableDiffusionBotBuilder {
    /// Constructor that returns a new StableDiffusionBotBuilder instance.
    pub fn new(api_key: String, allowed_users: Vec<i64>, sd_api_url: String, api_type: ApiType, allow_all_users: bool) -> (r: Self)
        ensures
            r == (StableDiffusionBotBuilder {
                api_key,
                allowed_users,
                db_path: None,
                sd_api_url,
                api_type,
                txt2img_defaults: None,
                img2img_defaults: None,
                comfyui_prompt_file: None,
                allow_all_users,
            }),
    {
        StableDiffusionBotBuilder {
            api_key,
            allowed_users,
            db_path: None,
            sd_api_url,
            txt2img_defaults: None,
            img2img_defaults: None,
            allow_all_users,
            api_type,
            comfyui_prompt_file: None,
        }
    }

    /// Sets the path of the storage database for the bot.
    pub fn db_path(self, path: Option<String>) -> (r: Self)
        ensures
            r == (StableDiffusionBotBuilder { db_path: path, ..self }),
    {
        StableDiffusionBotBuilder { db_path: path, ..self }
    }

    /// Sets the defaults for text to image requests: `request` merged over
    /// the defaults set before.
    pub fn txt2img_defaults(self, request: Txt2ImgRequest) -> (r: Self)
        ensures
            r == (StableDiffusionBotBuilder { txt2img_defaults: r.txt2img_defaults, ..self }),
            r.txt2img_defaults matches Some(d) && d.same(txt2img_defaults_after(self.txt2img_defaults, request)),
    {
        let base = request_or_default(&self.txt2img_defaults);
        let merged = base.merge(request);
        StableDiffusionBotBuilder { txt2img_defaults: Some(merged), ..self }
    }

    /// Clears the defaults for text to image requests.
    pub fn clear_txt2img_defaults(self) -> (r: Self)
        ensures
            r == (StableDiffusionBotBuilder { txt2img_defaults: None, ..self }),
    {
        StableDiffusionBotBuilder { txt2img_defaults: None, ..self }
    }

    /// Sets the defaults for image to image requests: `request` merged over
    /// the defaults set before.
    pub fn img2img_defaults(self, request: Img2ImgRequest) -> (r: Self)
        ensures
            r == (StableDiffusionBotBuilder { img2img_defaults: r.img2img_defaults, ..self }),
            r.img2img_defaults matches Some(d) && d.same(img2img_defaults_after(self.img2img_defaults, request)),
    {
        let base = img_request_or_default(&self.img2img_defaults);
        let merged = base.merge(request);
        StableDiffusionBotBuilder { img2img_defaults: Some(merged), ..self }
    }

    /// Clears the defaults for image to image requests.
    pub fn clear_img2img_defaults(self) -> (r: Self)
        ensures
            r == (StableDiffusionBotBuilder { img2img_defaults: None, ..self }),
    {
        StableDiffusionBotBuilder { img2img_defaults: None, ..self }
    }

    /// Sets the path of the ComfyUI workflow file.
    pub fn comfyui_prompt_file(self, prompt_file: String) -> (r: Self)
        ensures
            r == (StableDiffusionBotBuilder { comfyui_prompt_file: Some(prompt_file), ..self }),
    {
        StableDiffusionBotBuilder { comfyui_prompt_file: Some(prompt_file), ..self }
    }

    /// Builds the bot. The ComfyUI back end runs `comfyui_prompt`, the
    /// workflow read from the workflow file, and needs one; the web UI back
    /// end uses the defaults set, or none.
    pub fn build(self, comfyui_prompt: Option<Prompt>) -> (r: Result<StableDiffusionBot, BotBuildError>)
        ensures
            (self.api_type == ApiType::ComfyUI && comfyui_prompt is None) <==> r is Err,
            r matches Ok(bot) ==> {
                &&& bot.api_key == self.api_key
                &&& bot.db_path == self.db_path
                &&& bot.sd_api_url == self.sd_api_url
                &&& bot.config.allow_all_users == self.allow_all_users
                &&& bot.config.allowed_users@.no_duplicates()
                &&& forall|x: i64| bot.config.allowed_users@.contains(x) <==> self.allowed_users@.contains(x)
                &&& self.api_type == ApiType::ComfyUI ==> (comfyui_prompt matches Some(p)
                    && bot.config.txt2img_api matches Backend::Comfy(t)
                    && bot.config.img2img_api matches Backend::Comfy(i)
                    && i.params == ComfyParams::spec_with_prompt(p)
                    && t.params.same(i.params))
                &&& self.api_type == ApiType::StableDiffusionWebUi ==> (bot.config.txt2img_api matches Backend::WebUi(t)
                    && bot.config.img2img_api matches Backend::WebUi(i)
                    && t.txt2img_defaults.same(i.txt2img_defaults)
                    && t.img2img_defaults.same(i.img2img_defaults)
                    && match self.txt2img_defaults {
                        Some(d) => t.txt2img_defaults.same(d),
                        None => t.txt2img_defaults == Txt2ImgRequest::spec_default(),
                    }
                    && match self.img2img_defaults {
                        Some(d) => t.img2img_defaults.same(d),
                        None => t.img2img_defaults == Img2ImgRequest::spec_default(),
                    })
            },
    {
        let allowed_users = dedup(&self.allowed_users);
        let (txt2img_api, img2img_api) = match self.api_type {
            ApiType::ComfyUI => {
                let prompt = match comfyui_prompt {
                    Some(p) => p,
                    None => return Err(BotBuildError::NoComfyUiPrompt),
                };
                let api = ComfyPromptApi::new(prompt);
                (Backend::Comfy(clone_comfy_api(&api)), Backend::Comfy(api))
            },
            ApiType::StableDiffusionWebUi => {
                let txt2img_api = StableDiffusionWebUiApi {
                    txt2img_defaults: request_or_default(&self.txt2img_defaults),
                    img2img_defaults: img_request_or_default(&self.img2img_defaults),
                };
                let img2img_api = StableDiffusionWebUiApi {
                    txt2img_defaults: request_or_default(&self.txt2img_defaults),
                    img2img_defaults: img_request_or_default(&self.img2img_defaults),
                };
                (Backend::WebUi(txt2img_api), Backend::WebUi(img2img_api))
            },
        };
        Ok(StableDiffusionBot {
            api_key: self.api_key,
            db_path: self.db_path,
            sd_api_url: self.sd_api_url,
            config: ConfigParameters {
                allowed_users,
                txt2img_api,
                img2img_api,
                allow_all_users: self.allow_all_users,
            },
        })
    }
}

} // verus!
