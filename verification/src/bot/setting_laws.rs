//! What each setting of the settings menu changes.

use vstd::prelude::*;

use crate::bot::settings::{img2img_update, snapped_size, txt2img_update, updated, ParamUpdate, SettingError};
use crate::float_bits::FloatBits;
use crate::numbers::{parsed_i64, parsed_u32};
use crate::params::gen_params::GenParams;

verus! {

/// Setting `steps` in the text-to-image settings sets the steps to
/// the number typed and leaves every other parameter as it was; a value
/// that cannot be read is refused.
#[verifier::rlimit(60)]
pub proof fn law_txt2img_setting_steps(before: GenParams, after: GenParams, value: String, number: Option<FloatBits>, n: u32, u: ParamUpdate)
    ensures
        parsed_u32(value@) is Some ==> txt2img_update("steps"@, value, number) is Ok,
        parsed_u32(value@) is None ==> txt2img_update("steps"@, value, number) == Err::<ParamUpdate, SettingError>(SettingError::InvalidValue),
        (parsed_u32(value@) == Some(n) && txt2img_update("steps"@, value, number) == Ok::<ParamUpdate, SettingError>(u) && updated(before, after, u)) ==> {
            &&& after.spec_steps() == Some(n)
            &&& after.spec_seed() == before.spec_seed()
            &&& after.spec_count() == before.spec_count()
            &&& after.spec_cfg() == before.spec_cfg()
            &&& after.spec_width() == before.spec_width()
            &&& after.spec_height() == before.spec_height()
            &&& after.spec_negative_prompt() == before.spec_negative_prompt()
            &&& after.spec_denoising() == before.spec_denoising()
            &&& after.spec_prompt() == before.spec_prompt()
            &&& after.spec_sampler() == before.spec_sampler()
            &&& after.spec_batch_size() == before.spec_batch_size()
        },
{
    reveal_strlit("steps");
    assert("steps"@.len() == 5);
    assert("steps"@[0] == 's');
    reveal_strlit("seed");
    assert("seed"@.len() == 4);
    reveal_strlit("count");
    assert("count"@.len() == 5);
    assert("count"@[0] == 'c');
    reveal_strlit("cfg");
    assert("cfg"@.len() == 3);
    reveal_strlit("width");
    assert("width"@.len() == 5);
    assert("width"@[0] == 'w');
    reveal_strlit("height");
    assert("height"@.len() == 6);
    reveal_strlit("negative");
    assert("negative"@.len() == 8);
    reveal_strlit("denoising");
    assert("denoising"@.len() == 9);
}

/// Setting `seed` in the text-to-image settings sets the seed to
/// the number typed and leaves every other parameter as it was; a value
/// that cannot be read is refused.
#[verifier::rlimit(60)]
pub proof fn law_txt2img_setting_seed(before: GenParams, after: GenParams, value: String, number: Option<FloatBits>, n: i64, u: ParamUpdate)
    ensures
        parsed_i64(value@) is Some ==> txt2img_update("seed"@, value, number) is Ok,
        parsed_i64(value@) is None ==> txt2img_update("seed"@, value, number) == Err::<ParamUpdate, SettingError>(SettingError::InvalidValue),
        (parsed_i64(value@) == Some(n) && txt2img_update("seed"@, value, number) == Ok::<ParamUpdate, SettingError>(u) && updated(before, after, u)) ==> {
            &&& after.spec_seed() == Some(n)
            &&& after.spec_steps() == before.spec_steps()
            &&& after.spec_count() == before.spec_count()
            &&& after.spec_cfg() == before.spec_cfg()
            &&& after.spec_width() == before.spec_width()
            &&& after.spec_height() == before.spec_height()
            &&& after.spec_negative_prompt() == before.spec_negative_prompt()
            &&& after.spec_denoising() == before.spec_denoising()
            &&& after.spec_prompt() == before.spec_prompt()
            &&& after.spec_sampler() == before.spec_sampler()
            &&& after.spec_batch_size() == before.spec_batch_size()
        },
{
    reveal_strlit("steps");
    assert("steps"@.len() == 5);
    assert("steps"@[0] == 's');
    reveal_strlit("seed");
    assert("seed"@.len() == 4);
    reveal_strlit("count");
    assert("count"@.len() == 5);
    assert("count"@[0] == 'c');
    reveal_strlit("cfg");
    assert("cfg"@.len() == 3);
    reveal_strlit("width");
    assert("width"@.len() == 5);
    assert("width"@[0] == 'w');
    reveal_strlit("height");
    assert("height"@.len() == 6);
    reveal_strlit("negative");
    assert("negative"@.len() == 8);
    reveal_strlit("denoising");
    assert("denoising"@.len() == 9);
}

/// Setting `count` in the text-to-image settings sets the count to
/// the number typed and leaves every other parameter as it was; a value
/// that cannot be read is refused.
#[verifier::rlimit(60)]
pub proof fn law_txt2img_setting_count(before: GenParams, after: GenParams, value: String, number: Option<FloatBits>, n: u32, u: ParamUpdate)
    ensures
        parsed_u32(value@) is Some ==> txt2img_update("count"@, value, number) is Ok,
        parsed_u32(value@) is None ==> txt2img_update("count"@, value, number) == Err::<ParamUpdate, SettingError>(SettingError::InvalidValue),
        (parsed_u32(value@) == Some(n) && txt2img_update("count"@, value, number) == Ok::<ParamUpdate, SettingError>(u) && updated(before, after, u)) ==> {
            &&& after.spec_count() == Some(n)
            &&& after.spec_steps() == before.spec_steps()
            &&& after.spec_seed() == before.spec_seed()
            &&& after.spec_cfg() == before.spec_cfg()
            &&& after.spec_width() == before.spec_width()
            &&& after.spec_height() == before.spec_height()
            &&& after.spec_negative_prompt() == before.spec_negative_prompt()
            &&& after.spec_denoising() == before.spec_denoising()
            &&& after.spec_prompt() == before.spec_prompt()
            &&& after.spec_sampler() == before.spec_sampler()
            &&& after.spec_batch_size() == before.spec_batch_size()
        },
{
    reveal_strlit("steps");
    assert("steps"@.len() == 5);
    assert("steps"@[0] == 's');
    reveal_strlit("seed");
    assert("seed"@.len() == 4);
    reveal_strlit("count");
    assert("count"@.len() == 5);
    assert("count"@[0] == 'c');
    reveal_strlit("cfg");
    assert("cfg"@.len() == 3);
    reveal_strlit("width");
    assert("width"@.len() == 5);
    assert("width"@[0] == 'w');
    reveal_strlit("height");
    assert("height"@.len() == 6);
    reveal_strlit("negative");
    assert("negative"@.len() == 8);
    reveal_strlit("denoising");
    assert("denoising"@.len() == 9);
}

/// Setting `cfg` in the text-to-image settings sets the cfg to
/// the floating-point value read from the text and leaves every other parameter as it was; a value
/// that cannot be read is refused.
#[verifier::rlimit(60)]
pub proof fn law_txt2img_setting_cfg(before: GenParams, after: GenParams, value: String, number: Option<FloatBits>, n: FloatBits, u: ParamUpdate)
    ensures
        number is Some ==> txt2img_update("cfg"@, value, number) is Ok,
        number is None ==> txt2img_update("cfg"@, value, number) == Err::<ParamUpdate, SettingError>(SettingError::InvalidValue),
        (number == Some(n) && txt2img_update("cfg"@, value, number) == Ok::<ParamUpdate, SettingError>(u) && updated(before, after, u)) ==> {
            &&& after.spec_cfg() == Some(n)
            &&& after.spec_steps() == before.spec_steps()
            &&& after.spec_seed() == before.spec_seed()
            &&& after.spec_count() == before.spec_count()
            &&& after.spec_width() == before.spec_width()
            &&& after.spec_height() == before.spec_height()
            &&& after.spec_negative_prompt() == before.spec_negative_prompt()
            &&& after.spec_denoising() == before.spec_denoising()
            &&& after.spec_prompt() == before.spec_prompt()
            &&& after.spec_sampler() == before.spec_sampler()
            &&& after.spec_batch_size() == before.spec_batch_size()
        },
{
    reveal_strlit("steps");
    assert("steps"@.len() == 5);
    assert("steps"@[0] == 's');
    reveal_strlit("seed");
    assert("seed"@.len() == 4);
    reveal_strlit("count");
    assert("count"@.len() == 5);
    assert("count"@[0] == 'c');
    reveal_strlit("cfg");
    assert("cfg"@.len() == 3);
    reveal_strlit("width");
    assert("width"@.len() == 5);
    assert("width"@[0] == 'w');
    reveal_strlit("height");
    assert("height"@.len() == 6);
    reveal_strlit("negative");
    assert("negative"@.len() == 8);
    reveal_strlit("denoising");
    assert("denoising"@.len() == 9);
}

/// Setting `width` in the text-to-image settings sets the width to
/// the number typed and leaves every other parameter as it was; a value
/// that cannot be read is refused.
#[verifier::rlimit(60)]
pub proof fn law_txt2img_setting_width(before: GenParams, after: GenParams, value: String, number: Option<FloatBits>, n: u32, u: ParamUpdate)
    ensures
        parsed_u32(value@) is Some ==> txt2img_update("width"@, value, number) is Ok,
        parsed_u32(value@) is None ==> txt2img_update("width"@, value, number) == Err::<ParamUpdate, SettingError>(SettingError::InvalidValue),
        (parsed_u32(value@) == Some(n) && txt2img_update("width"@, value, number) == Ok::<ParamUpdate, SettingError>(u) && updated(before, after, u)) ==> {
            &&& after.spec_width() == Some(n)
            &&& after.spec_steps() == before.spec_steps()
            &&& after.spec_seed() == before.spec_seed()
            &&& after.spec_count() == before.spec_count()
            &&& after.spec_cfg() == before.spec_cfg()
            &&& after.spec_height() == before.spec_height()
            &&& after.spec_negative_prompt() == before.spec_negative_prompt()
            &&& after.spec_denoising() == before.spec_denoising()
            &&& after.spec_prompt() == before.spec_prompt()
            &&& after.spec_sampler() == before.spec_sampler()
            &&& after.spec_batch_size() == before.spec_batch_size()
        },
{
    reveal_strlit("steps");
    assert("steps"@.len() == 5);
    assert("steps"@[0] == 's');
    reveal_strlit("seed");
    assert("seed"@.len() == 4);
    reveal_strlit("count");
    assert("count"@.len() == 5);
    assert("count"@[0] == 'c');
    reveal_strlit("cfg");
    assert("cfg"@.len() == 3);
    reveal_strlit("width");
    assert("width"@.len() == 5);
    assert("width"@[0] == 'w');
    reveal_strlit("height");
    assert("height"@.len() == 6);
    reveal_strlit("negative");
    assert("negative"@.len() == 8);
    reveal_strlit("denoising");
    assert("denoising"@.len() == 9);
}

/// Setting `height` in the text-to-image settings sets the height to
/// the number typed and leaves every other parameter as it was; a value
/// that cannot be read is refused.
#[verifier::rlimit(60)]
pub proof fn law_txt2img_setting_height(before: GenParams, after: GenParams, value: String, number: Option<FloatBits>, n: u32, u: ParamUpdate)
    ensures
        parsed_u32(value@) is Some ==> txt2img_update("height"@, value, number) is Ok,
        parsed_u32(value@) is None ==> txt2img_update("height"@, value, number) == Err::<ParamUpdate, SettingError>(SettingError::InvalidValue),
        (parsed_u32(value@) == Some(n) && txt2img_update("height"@, value, number) == Ok::<ParamUpdate, SettingError>(u) && updated(before, after, u)) ==> {
            &&& after.spec_height() == Some(n)
            &&& after.spec_steps() == before.spec_steps()
            &&& after.spec_seed() == before.spec_seed()
            &&& after.spec_count() == before.spec_count()
            &&& after.spec_cfg() == before.spec_cfg()
            &&& after.spec_width() == before.spec_width()
            &&& after.spec_negative_prompt() == before.spec_negative_prompt()
            &&& after.spec_denoising() == before.spec_denoising()
            &&& after.spec_prompt() == before.spec_prompt()
            &&& after.spec_sampler() == before.spec_sampler()
            &&& after.spec_batch_size() == before.spec_batch_size()
        },
{
    reveal_strlit("steps");
    assert("steps"@.len() == 5);
    assert("steps"@[0] == 's');
    reveal_strlit("seed");
    assert("seed"@.len() == 4);
    reveal_strlit("count");
    assert("count"@.len() == 5);
    assert("count"@[0] == 'c');
    reveal_strlit("cfg");
    assert("cfg"@.len() == 3);
    reveal_strlit("width");
    assert("width"@.len() == 5);
    assert("width"@[0] == 'w');
    reveal_strlit("height");
    assert("height"@.len() == 6);
    reveal_strlit("negative");
    assert("negative"@.len() == 8);
    reveal_strlit("denoising");
    assert("denoising"@.len() == 9);
}

/// Setting `negative` in the text-to-image settings sets the negative prompt to
/// the text typed and leaves every other parameter as it was; a value
/// that cannot be read is refused.
#[verifier::rlimit(60)]
pub proof fn law_txt2img_setting_negative(before: GenParams, after: GenParams, value: String, number: Option<FloatBits>, u: ParamUpdate)
    ensures
        txt2img_update("negative"@, value, number) is Ok,
        (txt2img_update("negative"@, value, number) == Ok::<ParamUpdate, SettingError>(u) && updated(before, after, u)) ==> {
            &&& after.spec_negative_prompt() == Some(value)
            &&& after.spec_steps() == before.spec_steps()
            &&& after.spec_seed() == before.spec_seed()
            &&& after.spec_count() == before.spec_count()
            &&& after.spec_cfg() == before.spec_cfg()
            &&& after.spec_width() == before.spec_width()
            &&& after.spec_height() == before.spec_height()
            &&& after.spec_denoising() == before.spec_denoising()
            &&& after.spec_prompt() == before.spec_prompt()
            &&& after.spec_sampler() == before.spec_sampler()
            &&& after.spec_batch_size() == before.spec_batch_size()
        },
{
    reveal_strlit("steps");
    assert("steps"@.len() == 5);
    assert("steps"@[0] == 's');
    reveal_strlit("seed");
    assert("seed"@.len() == 4);
    reveal_strlit("count");
    assert("count"@.len() == 5);
    assert("count"@[0] == 'c');
    reveal_strlit("cfg");
    assert("cfg"@.len() == 3);
    reveal_strlit("width");
    assert("width"@.len() == 5);
    assert("width"@[0] == 'w');
    reveal_strlit("height");
    assert("height"@.len() == 6);
    reveal_strlit("negative");
    assert("negative"@.len() == 8);
    reveal_strlit("denoising");
    assert("denoising"@.len() == 9);
}

/// Setting `denoising` in the text-to-image settings sets the denoising to
/// the floating-point value read from the text and leaves every other parameter as it was; a value
/// that cannot be read is refused.
#[verifier::rlimit(60)]
pub proof fn law_txt2img_setting_denoising(before: GenParams, after: GenParams, value: String, number: Option<FloatBits>, n: FloatBits, u: ParamUpdate)
    ensures
        number is Some ==> txt2img_update("denoising"@, value, number) is Ok,
        number is None ==> txt2img_update("denoising"@, value, number) == Err::<ParamUpdate, SettingError>(SettingError::InvalidValue),
        (number == Some(n) && txt2img_update("denoising"@, value, number) == Ok::<ParamUpdate, SettingError>(u) && updated(before, after, u)) ==> {
            &&& after.spec_denoising() == Some(n)
            &&& after.spec_steps() == before.spec_steps()
            &&& after.spec_seed() == before.spec_seed()
            &&& after.spec_count() == before.spec_count()
            &&& after.spec_cfg() == before.spec_cfg()
            &&& after.spec_width() == before.spec_width()
            &&& after.spec_height() == before.spec_height()
            &&& after.spec_negative_prompt() == before.spec_negative_prompt()
            &&& after.spec_prompt() == before.spec_prompt()
            &&& after.spec_sampler() == before.spec_sampler()
            &&& after.spec_batch_size() == before.spec_batch_size()
        },
{
    reveal_strlit("steps");
    assert("steps"@.len() == 5);
    assert("steps"@[0] == 's');
    reveal_strlit("seed");
    assert("seed"@.len() == 4);
    reveal_strlit("count");
    assert("count"@.len() == 5);
    assert("count"@[0] == 'c');
    reveal_strlit("cfg");
    assert("cfg"@.len() == 3);
    reveal_strlit("width");
    assert("width"@.len() == 5);
    assert("width"@[0] == 'w');
    reveal_strlit("height");
    assert("height"@.len() == 6);
    reveal_strlit("negative");
    assert("negative"@.len() == 8);
    reveal_strlit("denoising");
    assert("denoising"@.len() == 9);
}

/// Setting `steps` in the image-to-image settings sets the steps to
/// the number typed (limited to its range) and leaves every other parameter as it was; a value
/// that cannot be read is refused.
#[verifier::rlimit(60)]
pub proof fn law_img2img_setting_steps(before: GenParams, after: GenParams, value: String, number: Option<FloatBits>, n: u32, u: ParamUpdate)
    ensures
        parsed_u32(value@) is Some ==> img2img_update("steps"@, value, number) is Ok,
        parsed_u32(value@) is None ==> img2img_update("steps"@, value, number) == Err::<ParamUpdate, SettingError>(SettingError::InvalidValue),
        (parsed_u32(value@) == Some(n) && img2img_update("steps"@, value, number) == Ok::<ParamUpdate, SettingError>(u) && updated(before, after, u)) ==> {
            &&& after.spec_steps() == Some((if n < 200 { n } else { 200 }))
            &&& after.spec_seed() == before.spec_seed()
            &&& after.spec_count() == before.spec_count()
            &&& after.spec_cfg() == before.spec_cfg()
            &&& after.spec_width() == before.spec_width()
            &&& after.spec_height() == before.spec_height()
            &&& after.spec_negative_prompt() == before.spec_negative_prompt()
            &&& after.spec_denoising() == before.spec_denoising()
            &&& after.spec_prompt() == before.spec_prompt()
            &&& after.spec_sampler() == before.spec_sampler()
            &&& after.spec_batch_size() == before.spec_batch_size()
        },
{
    reveal_strlit("steps");
    assert("steps"@.len() == 5);
    assert("steps"@[0] == 's');
    reveal_strlit("seed");
    assert("seed"@.len() == 4);
    reveal_strlit("count");
    assert("count"@.len() == 5);
    assert("count"@[0] == 'c');
    reveal_strlit("cfg");
    assert("cfg"@.len() == 3);
    reveal_strlit("width");
    assert("width"@.len() == 5);
    assert("width"@[0] == 'w');
    reveal_strlit("height");
    assert("height"@.len() == 6);
    reveal_strlit("negative");
    assert("negative"@.len() == 8);
    reveal_strlit("denoising");
    assert("denoising"@.len() == 9);
}

/// Setting `seed` in the image-to-image settings sets the seed to
/// the number typed (limited to its range) and leaves every other parameter as it was; a value
/// that cannot be read is refused.
#[verifier::rlimit(60)]
pub proof fn law_img2img_setting_seed(before: GenParams, after: GenParams, value: String, number: Option<FloatBits>, n: i64, u: ParamUpdate)
    ensures
        parsed_i64(value@) is Some ==> img2img_update("seed"@, value, number) is Ok,
        parsed_i64(value@) is None ==> img2img_update("seed"@, value, number) == Err::<ParamUpdate, SettingError>(SettingError::InvalidValue),
        (parsed_i64(value@) == Some(n) && img2img_update("seed"@, value, number) == Ok::<ParamUpdate, SettingError>(u) && updated(before, after, u)) ==> {
            &&& after.spec_seed() == Some((if n < -1 { -1i64 } else { n }))
            &&& after.spec_steps() == before.spec_steps()
            &&& after.spec_count() == before.spec_count()
            &&& after.spec_cfg() == before.spec_cfg()
            &&& after.spec_width() == before.spec_width()
            &&& after.spec_height() == before.spec_height()
            &&& after.spec_negative_prompt() == before.spec_negative_prompt()
            &&& after.spec_denoising() == before.spec_denoising()
            &&& after.spec_prompt() == before.spec_prompt()
            &&& after.spec_sampler() == before.spec_sampler()
            &&& after.spec_batch_size() == before.spec_batch_size()
        },
{
    reveal_strlit("steps");
    assert("steps"@.len() == 5);
    assert("steps"@[0] == 's');
    reveal_strlit("seed");
    assert("seed"@.len() == 4);
    reveal_strlit("count");
    assert("count"@.len() == 5);
    assert("count"@[0] == 'c');
    reveal_strlit("cfg");
    assert("cfg"@.len() == 3);
    reveal_strlit("width");
    assert("width"@.len() == 5);
    assert("width"@[0] == 'w');
    reveal_strlit("height");
    assert("height"@.len() == 6);
    reveal_strlit("negative");
    assert("negative"@.len() == 8);
    reveal_strlit("denoising");
    assert("denoising"@.len() == 9);
}

/// Setting `count` in the image-to-image settings sets the count to
/// the number typed (limited to its range) and leaves every other parameter as it was; a value
/// that cannot be read is refused.
#[verifier::rlimit(60)]
pub proof fn law_img2img_setting_count(before: GenParams, after: GenParams, value: String, number: Option<FloatBits>, n: u32, u: ParamUpdate)
    ensures
        parsed_u32(value@) is Some ==> img2img_update("count"@, value, number) is Ok,
        parsed_u32(value@) is None ==> img2img_update("count"@, value, number) == Err::<ParamUpdate, SettingError>(SettingError::InvalidValue),
        (parsed_u32(value@) == Some(n) && img2img_update("count"@, value, number) == Ok::<ParamUpdate, SettingError>(u) && updated(before, after, u)) ==> {
            &&& after.spec_count() == Some((if n < 1 { 1 } else if n > 10 { 10 } else { n }))
            &&& after.spec_steps() == before.spec_steps()
            &&& after.spec_seed() == before.spec_seed()
            &&& after.spec_cfg() == before.spec_cfg()
            &&& after.spec_width() == before.spec_width()
            &&& after.spec_height() == before.spec_height()
            &&& after.spec_negative_prompt() == before.spec_negative_prompt()
            &&& after.spec_denoising() == before.spec_denoising()
            &&& after.spec_prompt() == before.spec_prompt()
            &&& after.spec_sampler() == before.spec_sampler()
            &&& after.spec_batch_size() == before.spec_batch_size()
        },
{
    reveal_strlit("steps");
    assert("steps"@.len() == 5);
    assert("steps"@[0] == 's');
    reveal_strlit("seed");
    assert("seed"@.len() == 4);
    reveal_strlit("count");
    assert("count"@.len() == 5);
    assert("count"@[0] == 'c');
    reveal_strlit("cfg");
    assert("cfg"@.len() == 3);
    reveal_strlit("width");
    assert("width"@.len() == 5);
    assert("width"@[0] == 'w');
    reveal_strlit("height");
    assert("height"@.len() == 6);
    reveal_strlit("negative");
    assert("negative"@.len() == 8);
    reveal_strlit("denoising");
    assert("denoising"@.len() == 9);
}

/// Setting `cfg` in the image-to-image settings sets the cfg to
/// the floating-point value read from the text and leaves every other parameter as it was; a value
/// that cannot be read is refused.
#[verifier::rlimit(60)]
pub proof fn law_img2img_setting_cfg(before: GenParams, after: GenParams, value: String, number: Option<FloatBits>, n: FloatBits, u: ParamUpdate)
    ensures
        number is Some ==> img2img_update("cfg"@, value, number) is Ok,
        number is None ==> img2img_update("cfg"@, value, number) == Err::<ParamUpdate, SettingError>(SettingError::InvalidValue),
        (number == Some(n) && img2img_update("cfg"@, value, number) == Ok::<ParamUpdate, SettingError>(u) && updated(before, after, u)) ==> {
            &&& after.spec_cfg() == Some(n)
            &&& after.spec_steps() == before.spec_steps()
            &&& after.spec_seed() == before.spec_seed()
            &&& after.spec_count() == before.spec_count()
            &&& after.spec_width() == before.spec_width()
            &&& after.spec_height() == before.spec_height()
            &&& after.spec_negative_prompt() == before.spec_negative_prompt()
            &&& after.spec_denoising() == before.spec_denoising()
            &&& after.spec_prompt() == before.spec_prompt()
            &&& after.spec_sampler() == before.spec_sampler()
            &&& after.spec_batch_size() == before.spec_batch_size()
        },
{
    reveal_strlit("steps");
    assert("steps"@.len() == 5);
    assert("steps"@[0] == 's');
    reveal_strlit("seed");
    assert("seed"@.len() == 4);
    reveal_strlit("count");
    assert("count"@.len() == 5);
    assert("count"@[0] == 'c');
    reveal_strlit("cfg");
    assert("cfg"@.len() == 3);
    reveal_strlit("width");
    assert("width"@.len() == 5);
    assert("width"@[0] == 'w');
    reveal_strlit("height");
    assert("height"@.len() == 6);
    reveal_strlit("negative");
    assert("negative"@.len() == 8);
    reveal_strlit("denoising");
    assert("denoising"@.len() == 9);
}

/// Setting `width` in the image-to-image settings sets the width to
/// the number typed (limited to its range) and leaves every other parameter as it was; a value
/// that cannot be read is refused.
#[verifier::rlimit(60)]
pub proof fn law_img2img_setting_width(before: GenParams, after: GenParams, value: String, number: Option<FloatBits>, n: u32, u: ParamUpdate)
    ensures
        parsed_u32(value@) is Some ==> img2img_update("width"@, value, number) is Ok,
        parsed_u32(value@) is None ==> img2img_update("width"@, value, number) == Err::<ParamUpdate, SettingError>(SettingError::InvalidValue),
        (parsed_u32(value@) == Some(n) && img2img_update("width"@, value, number) == Ok::<ParamUpdate, SettingError>(u) && updated(before, after, u)) ==> {
            &&& after.spec_width() == Some(snapped_size(n))
            &&& after.spec_steps() == before.spec_steps()
            &&& after.spec_seed() == before.spec_seed()
            &&& after.spec_count() == before.spec_count()
            &&& after.spec_cfg() == before.spec_cfg()
            &&& after.spec_height() == before.spec_height()
            &&& after.spec_negative_prompt() == before.spec_negative_prompt()
            &&& after.spec_denoising() == before.spec_denoising()
            &&& after.spec_prompt() == before.spec_prompt()
            &&& after.spec_sampler() == before.spec_sampler()
            &&& after.spec_batch_size() == before.spec_batch_size()
        },
{
    reveal_strlit("steps");
    assert("steps"@.len() == 5);
    assert("steps"@[0] == 's');
    reveal_strlit("seed");
    assert("seed"@.len() == 4);
    reveal_strlit("count");
    assert("count"@.len() == 5);
    assert("count"@[0] == 'c');
    reveal_strlit("cfg");
    assert("cfg"@.len() == 3);
    reveal_strlit("width");
    assert("width"@.len() == 5);
    assert("width"@[0] == 'w');
    reveal_strlit("height");
    assert("height"@.len() == 6);
    reveal_strlit("negative");
    assert("negative"@.len() == 8);
    reveal_strlit("denoising");
    assert("denoising"@.len() == 9);
}

/// Setting `height` in the image-to-image settings sets the height to
/// the number typed (limited to its range) and leaves every other parameter as it was; a value
/// that cannot be read is refused.
#[verifier::rlimit(60)]
pub proof fn law_img2img_setting_height(before: GenParams, after: GenParams, value: String, number: Option<FloatBits>, n: u32, u: ParamUpdate)
    ensures
        parsed_u32(value@) is Some ==> img2img_update("height"@, value, number) is Ok,
        parsed_u32(value@) is None ==> img2img_update("height"@, value, number) == Err::<ParamUpdate, SettingError>(SettingError::InvalidValue),
        (parsed_u32(value@) == Some(n) && img2img_update("height"@, value, number) == Ok::<ParamUpdate, SettingError>(u) && updated(before, after, u)) ==> {
            &&& after.spec_height() == Some(snapped_size(n))
            &&& after.spec_steps() == before.spec_steps()
            &&& after.spec_seed() == before.spec_seed()
            &&& after.spec_count() == before.spec_count()
            &&& after.spec_cfg() == before.spec_cfg()
            &&& after.spec_width() == before.spec_width()
            &&& after.spec_negative_prompt() == before.spec_negative_prompt()
            &&& after.spec_denoising() == before.spec_denoising()
            &&& after.spec_prompt() == before.spec_prompt()
            &&& after.spec_sampler() == before.spec_sampler()
            &&& after.spec_batch_size() == before.spec_batch_size()
        },
{
    reveal_strlit("steps");
    assert("steps"@.len() == 5);
    assert("steps"@[0] == 's');
    reveal_strlit("seed");
    assert("seed"@.len() == 4);
    reveal_strlit("count");
    assert("count"@.len() == 5);
    assert("count"@[0] == 'c');
    reveal_strlit("cfg");
    assert("cfg"@.len() == 3);
    reveal_strlit("width");
    assert("width"@.len() == 5);
    assert("width"@[0] == 'w');
    reveal_strlit("height");
    assert("height"@.len() == 6);
    reveal_strlit("negative");
    assert("negative"@.len() == 8);
    reveal_strlit("denoising");
    assert("denoising"@.len() == 9);
}

/// Setting `negative` in the image-to-image settings sets the negative prompt to
/// the text typed and leaves every other parameter as it was; a value
/// that cannot be read is refused.
#[verifier::rlimit(60)]
pub proof fn law_img2img_setting_negative(before: GenParams, after: GenParams, value: String, number: Option<FloatBits>, u: ParamUpdate)
    ensures
        img2img_update("negative"@, value, number) is Ok,
        (img2img_update("negative"@, value, number) == Ok::<ParamUpdate, SettingError>(u) && updated(before, after, u)) ==> {
            &&& after.spec_negative_prompt() == Some(value)
            &&& after.spec_steps() == before.spec_steps()
            &&& after.spec_seed() == before.spec_seed()
            &&& after.spec_count() == before.spec_count()
            &&& after.spec_cfg() == before.spec_cfg()
            &&& after.spec_width() == before.spec_width()
            &&& after.spec_height() == before.spec_height()
            &&& after.spec_denoising() == before.spec_denoising()
            &&& after.spec_prompt() == before.spec_prompt()
            &&& after.spec_sampler() == before.spec_sampler()
            &&& after.spec_batch_size() == before.spec_batch_size()
        },
{
    reveal_strlit("steps");
    assert("steps"@.len() == 5);
    assert("steps"@[0] == 's');
    reveal_strlit("seed");
    assert("seed"@.len() == 4);
    reveal_strlit("count");
    assert("count"@.len() == 5);
    assert("count"@[0] == 'c');
    reveal_strlit("cfg");
    assert("cfg"@.len() == 3);
    reveal_strlit("width");
    assert("width"@.len() == 5);
    assert("width"@[0] == 'w');
    reveal_strlit("height");
    assert("height"@.len() == 6);
    reveal_strlit("negative");
    assert("negative"@.len() == 8);
    reveal_strlit("denoising");
    assert("denoising"@.len() == 9);
}

/// Setting `denoising` in the image-to-image settings sets the denoising to
/// the floating-point value read from the text and leaves every other parameter as it was; a value
/// that cannot be read is refused.
#[verifier::rlimit(60)]
pub proof fn law_img2img_setting_denoising(before: GenParams, after: GenParams, value: String, number: Option<FloatBits>, n: FloatBits, u: ParamUpdate)
    ensures
        number is Some ==> img2img_update("denoising"@, value, number) is Ok,
        number is None ==> img2img_update("denoising"@, value, number) == Err::<ParamUpdate, SettingError>(SettingError::InvalidValue),
        (number == Some(n) && img2img_update("denoising"@, value, number) == Ok::<ParamUpdate, SettingError>(u) && updated(before, after, u)) ==> {
            &&& after.spec_denoising() == Some(n)
            &&& after.spec_steps() == before.spec_steps()
            &&& after.spec_seed() == before.spec_seed()
            &&& after.spec_count() == before.spec_count()
            &&& after.spec_cfg() == before.spec_cfg()
            &&& after.spec_width() == before.spec_width()
            &&& after.spec_height() == before.spec_height()
            &&& after.spec_negative_prompt() == before.spec_negative_prompt()
            &&& after.spec_prompt() == before.spec_prompt()
            &&& after.spec_sampler() == before.spec_sampler()
            &&& after.spec_batch_size() == before.spec_batch_size()
        },
{
    reveal_strlit("steps");
    assert("steps"@.len() == 5);
    assert("steps"@[0] == 's');
    reveal_strlit("seed");
    assert("seed"@.len() == 4);
    reveal_strlit("count");
    assert("count"@.len() == 5);
    assert("count"@[0] == 'c');
    reveal_strlit("cfg");
    assert("cfg"@.len() == 3);
    reveal_strlit("width");
    assert("width"@.len() == 5);
    assert("width"@[0] == 'w');
    reveal_strlit("height");
    assert("height"@.len() == 6);
    reveal_strlit("negative");
    assert("negative"@.len() == 8);
    reveal_strlit("denoising");
    assert("denoising"@.len() == 9);
}

} // verus!
