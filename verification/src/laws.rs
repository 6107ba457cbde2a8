use vstd::prelude::*;

use crate::bot::config::{img2img_defaults_after, txt2img_defaults_after};
use crate::bot::callbacks::{first_seed, reuse_seed_of, split_slash};
use crate::bot::reply::{offered_seed, reply_buttons};
use crate::bot::settings::{img2img_update, snapped_size, txt2img_update, ParamUpdate};
use crate::float_bits::FloatBits;
use crate::numbers::{decimal, digit_char, digit_value, digits_value, is_digit, is_digits, parsed_i64, parsed_u32, signed_decimal};
use crate::params::gen_params::{applied, ComfyParams};
use crate::workflow::access::{
    get_field, get_slot, read_slot, set_field, set_slot, write_slot, AccessError, Field, Slot, SlotValue,
};
use crate::workflow::node::NodeView;
use crate::workflow::graph::{guessed_index, lemma_guessed_index};
use crate::workflow::shape::{lemma_guessed_same, lemma_write_at_shape, lemma_write_slot, same_shape};
use crate::workflow::builder::{build_output, build_step, built, BuildError, PromptBuilder};
use crate::workflow::graph::output_node;
use crate::workflow::prompt::WorkflowView;
use crate::params::gen_params::GenParams;
use crate::sdapi::common::or_opt;
use crate::sdapi::img2img::Img2ImgRequest;
use crate::sdapi::txt2img::Txt2ImgRequest;

verus! {

/// Choosing the first present value is associative.
pub broadcast proof fn lemma_or_opt_assoc<T>(x: Option<T>, y: Option<T>, z: Option<T>)
    ensures
        #[trigger] or_opt(or_opt(x, y), z) == or_opt(x, or_opt(y, z)),
{
}

/// Merging a text-to-image request with a request that sets nothing keeps
/// every setting.
pub proof fn law_txt2img_merge_empty(base: Txt2ImgRequest)
    ensures
        base.merged(Txt2ImgRequest::spec_default()) == base,
{
}

/// Merging a request over a base that sets nothing gives the request.
pub proof fn law_txt2img_merge_onto_empty(request: Txt2ImgRequest)
    ensures
        Txt2ImgRequest::spec_default().merged(request) == request,
{
}

/// Merging in two requests one after the other is merging in their merge:
/// later settings win.
pub proof fn law_txt2img_merge_associative(a: Txt2ImgRequest, b: Txt2ImgRequest, c: Txt2ImgRequest)
    ensures
        a.merged(b).merged(c) == a.merged(b.merged(c)),
{
    broadcast use lemma_or_opt_assoc;

}

/// Merging an image-to-image request with a request that sets nothing keeps
/// every setting.
pub proof fn law_img2img_merge_empty(base: Img2ImgRequest)
    ensures
        base.merged(Img2ImgRequest::spec_default()) == base,
{
}

/// Merging a request over a base that sets nothing gives the request.
pub proof fn law_img2img_merge_onto_empty(request: Img2ImgRequest)
    ensures
        Img2ImgRequest::spec_default().merged(request) == request,
{
}

/// Merging in two requests one after the other is merging in their merge.
pub proof fn law_img2img_merge_associative(a: Img2ImgRequest, b: Img2ImgRequest, c: Img2ImgRequest)
    ensures
        a.merged(b).merged(c) == a.merged(b.merged(c)),
{
    broadcast use lemma_or_opt_assoc;

}

/// Setting seed on generation parameters of any back end, then
/// reading it, gives back the value set.
pub proof fn law_set_then_get_seed(before: GenParams, after: GenParams, v: i64)
    requires
        before.with_seed(after, v),
    ensures
        after.spec_seed() == Some(v),
{
}

/// Setting steps on generation parameters of any back end, then
/// reading it, gives back the value set.
pub proof fn law_set_then_get_steps(before: GenParams, after: GenParams, v: u32)
    requires
        before.with_steps(after, v),
    ensures
        after.spec_steps() == Some(v),
{
}

/// Setting cfg on generation parameters of any back end, then
/// reading it, gives back the value set.
pub proof fn law_set_then_get_cfg(before: GenParams, after: GenParams, v: FloatBits)
    requires
        before.with_cfg(after, v),
    ensures
        after.spec_cfg() == Some(v),
{
}

/// Setting width on generation parameters of any back end, then
/// reading it, gives back the value set.
pub proof fn law_set_then_get_width(before: GenParams, after: GenParams, v: u32)
    requires
        before.with_width(after, v),
    ensures
        after.spec_width() == Some(v),
{
}

/// Setting height on generation parameters of any back end, then
/// reading it, gives back the value set.
pub proof fn law_set_then_get_height(before: GenParams, after: GenParams, v: u32)
    requires
        before.with_height(after, v),
    ensures
        after.spec_height() == Some(v),
{
}

/// Setting prompt on generation parameters of any back end, then
/// reading it, gives back the value set.
pub proof fn law_set_then_get_prompt(before: GenParams, after: GenParams, v: String)
    requires
        before.with_prompt(after, v),
    ensures
        after.spec_prompt() == Some(v),
{
}

/// Setting negative prompt on generation parameters of any back end, then
/// reading it, gives back the value set.
pub proof fn law_set_then_get_negative_prompt(before: GenParams, after: GenParams, v: String)
    requires
        before.with_negative_prompt(after, v),
    ensures
        after.spec_negative_prompt() == Some(v),
{
}

/// Setting denoising on generation parameters of any back end, then
/// reading it, gives back the value set.
pub proof fn law_set_then_get_denoising(before: GenParams, after: GenParams, v: FloatBits)
    requires
        before.with_denoising(after, v),
    ensures
        after.spec_denoising() == Some(v),
{
}

/// Setting sampler on generation parameters of any back end, then
/// reading it, gives back the value set.
pub proof fn law_set_then_get_sampler(before: GenParams, after: GenParams, v: String)
    requires
        before.with_sampler(after, v),
    ensures
        after.spec_sampler() == Some(v),
{
}

/// Setting batch size on generation parameters of any back end, then
/// reading it, gives back the value set.
pub proof fn law_set_then_get_batch_size(before: GenParams, after: GenParams, v: u32)
    requires
        before.with_batch_size(after, v),
    ensures
        after.spec_batch_size() == Some(v),
{
}

/// Setting count on generation parameters of any back end, then
/// reading it, gives back the value set.
pub proof fn law_set_then_get_count(before: GenParams, after: GenParams, v: u32)
    requires
        before.with_count(after, v),
    ensures
        after.spec_count() == Some(v),
{
}
/// Image-to-image settings stay in their ranges: at most 200 steps, a seed
/// of at least -1, between 1 and 10 images, and sizes that are multiples of
/// 64 between 64 and 1024.
pub proof fn law_img2img_setting_ranges(setting: Seq<char>, value: String, number: Option<FloatBits>)
    ensures
        match img2img_update(setting, value, number) {
            Ok(ParamUpdate::Steps(v)) => v <= 200,
            Ok(ParamUpdate::Seed(v)) => v >= -1,
            Ok(ParamUpdate::Count(v)) => 1 <= v <= 10,
            Ok(ParamUpdate::Width(v)) => 64 <= v <= 1024 && v % 64 == 0,
            Ok(ParamUpdate::Height(v)) => 64 <= v <= 1024 && v % 64 == 0,
            _ => true,
        },
{
    match txt2img_update(setting, value, number) {
        Ok(ParamUpdate::Width(v)) => lemma_snapped_size(v),
        Ok(ParamUpdate::Height(v)) => lemma_snapped_size(v),
        _ => {},
    }
}

/// An image-to-image size is rounded down to a multiple of 64: a size from
/// 64 up to 1087 becomes the largest multiple of 64 not above it, a smaller
/// one becomes 64 and a larger one 1024.
pub proof fn law_img2img_size_snapping(v: u32)
    ensures
        v < 64 ==> snapped_size(v) == 64,
        64 <= v < 1088 ==> snapped_size(v) % 64 == 0 && snapped_size(v) <= v < snapped_size(v) + 64,
        v >= 1024 ==> snapped_size(v) == 1024,
{
    assert((v - v % 64) % 64 == 0) by (bit_vector);
}

proof fn lemma_snapped_size(v: u32)
    ensures
        64 <= snapped_size(v) <= 1024,
        snapped_size(v) % 64 == 0,
{
    assert((v - v % 64) % 64 == 0) by (bit_vector);
}

/// Decimal digits read back as the number they were written for.
pub proof fn lemma_decimal_value(n: nat)
    ensures
        is_digits(decimal(n)),
        digits_value(decimal(n)) == n,
    decreases n,
{
    if n >= 10 {
        lemma_decimal_value(n / 10);
        let d = decimal(n / 10);
        let c = digit_char((n % 10) as int);
        assert(decimal(n) == d.push(c));
        assert(d.push(c).drop_last() =~= d);
        assert(digit_value(c) == n % 10);
        assert(d.push(c).last() == c);
        assert(digits_value(d.push(c)) == digits_value(d) * 10 + digit_value(c));
        assert((n / 10) * 10 + n % 10 == n);
        assert forall|i: int| 0 <= i < decimal(n).len() implies is_digit(#[trigger] decimal(n)[i]) by {
            if i < d.len() {
                assert(decimal(n)[i] == d[i]);
            }
        }
    } else {
        let c = digit_char(n as int);
        assert(digit_value(c) == n);
        assert(seq![c].drop_last() =~= Seq::<char>::empty());
        assert(seq![c].last() == c);
        assert(digits_value(Seq::<char>::empty()) == 0);
        assert(digits_value(seq![c]) == digits_value(seq![c].drop_last()) * 10 + digit_value(c));
    }
}

/// Reading the decimal text of a `u32` gives the number back.
pub proof fn law_parse_decimal_u32(n: u32)
    ensures
        parsed_u32(decimal(n as nat)) == Some(n),
{
    lemma_decimal_value(n as nat);
    assert(decimal(n as nat)[0] != '+');
}

/// Reading the decimal text of an `i64` gives the number back.
pub proof fn law_parse_decimal_i64(n: i64)
    ensures
        parsed_i64(signed_decimal(n as int)) == Some(n),
{
    if n < 0 {
        lemma_decimal_value((-n) as nat);
        let s = signed_decimal(n as int);
        assert(s.drop_first() =~= decimal((-n) as nat));
    } else {
        lemma_decimal_value(n as nat);
        assert(decimal(n as nat)[0] != '+' && decimal(n as nat)[0] != '-');
    }
}

/// Building a prompt with nothing to write gives the base workflow, once
/// there is an output node.
pub proof fn law_build_without_overrides(b: PromptBuilder)
    requires
        b.prompt is None,
        b.negative_prompt is None,
        b.model is None,
        b.width is None,
        b.height is None,
        b.seed is None,
        build_output(b) is Some,
    ensures
        built(b) == Ok::<WorkflowView, BuildError>(b.base_prompt@),
{
    reveal(build_step);
}

/// Building a prompt without a given output node fails exactly when the
/// workflow has no output node.
pub proof fn law_build_needs_output(b: PromptBuilder)
    requires
        b.output_node is None,
    ensures
        (built(b) == Err::<WorkflowView, BuildError>(BuildError::NoOutputNode)) <==> output_node(b.base_prompt@) is None,
{
    reveal(build_step);
}

/// Parameters that set nothing leave a workflow as it is.
pub proof fn law_apply_nothing(p: ComfyParams, w: WorkflowView)
    requires
        p.seed is None,
        p.steps is None,
        p.cfg is None,
        p.width is None,
        p.height is None,
        p.prompt_text is None,
        p.negative_prompt_text is None,
        p.denoising is None,
        p.sampler is None,
        p.batch_size is None,
    ensures
        applied(p, w) == w,
{
}

/// A reply with an image offers no seed to reuse when the image was made
/// with the seed asked for.
pub proof fn law_offered_seed_random(s: Option<i64>)
    ensures
        offered_seed(s, s) == -1,
{
}

/// Appending text without a slash extends the last part.
proof fn lemma_split_append(a: Seq<char>, b: Seq<char>)
    requires
        forall|i: int| 0 <= i < b.len() ==> b[i] != '/',
    ensures
        split_slash(a + b) == split_slash(a).update(
            split_slash(a).len() - 1,
            split_slash(a).last() + b,
        ),
        split_slash(a).len() >= 1,
    decreases b.len(),
{
    lemma_split_len(a);
    if b.len() == 0 {
        assert(a + b =~= a);
        assert(split_slash(a).last() + b =~= split_slash(a).last());
        assert(split_slash(a).update(split_slash(a).len() - 1, split_slash(a).last()) =~= split_slash(a));
    } else {
        let b2 = b.drop_last();
        lemma_split_append(a, b2);
        assert((a + b).drop_last() =~= a + b2);
        assert((a + b).last() == b.last());
        let p = split_slash(a + b2);
        assert(b[b.len() - 1] != '/');
        assert(forall|i: int| 0 <= i < b2.len() ==> b2[i] == b[i]);
        assert(p.len() == split_slash(a).len());
        assert(p.last() == split_slash(a).last() + b2);
        assert(split_slash(a + b) == p.update(p.len() - 1, p.last().push(b.last())));
        assert(p.last().push(b.last()) =~= split_slash(a).last() + b);
        assert(split_slash(a + b) =~= split_slash(a).update(split_slash(a).len() - 1, split_slash(a).last() + b));
    }
}

proof fn lemma_split_len(s: Seq<char>)
    ensures
        split_slash(s).len() >= 1,
    decreases s.len(),
{
    if s.len() > 0 {
        lemma_split_len(s.drop_last());
    }
}

/// The reuse button under a reply gives back the seed it offers: -1 for a
/// new random seed, or the seed the image was made with.
pub proof fn law_reuse_button_round_trip(seed: i64)
    ensures
        reuse_seed_of(reply_buttons(seed)[1].2) == Some(seed),
{
    reveal_strlit("reuse/");
    reveal_strlit("reuse");
    reveal_strlit("reuse/-1");
    let digits = signed_decimal(seed as int);
    let data = "reuse/"@ + digits;
    if seed == -1 {
        assert(decimal(1) =~= seq!['1']);
        assert("reuse/-1"@ =~= data);
    }
    assert(reply_buttons(seed)[1].2 == data);
    law_parse_decimal_i64(seed);
    if seed < 0 {
        lemma_decimal_value((-seed) as nat);
    } else {
        lemma_decimal_value(seed as nat);
    }
    assert forall|i: int| 0 <= i < digits.len() implies digits[i] != '/' by {
        if seed < 0 {
            if i > 0 {
                assert(digits[i] == decimal((-seed) as nat)[i - 1]);
                assert(is_digit(decimal((-seed) as nat)[i - 1]));
            }
        } else {
            assert(is_digit(decimal(seed as nat)[i]));
        }
    }
    assert("reuse"@ + seq![] =~= "reuse"@);
    lemma_split_append(seq![], "reuse"@);
    assert(Seq::<char>::empty() + "reuse"@ =~= "reuse"@);
    assert(split_slash(Seq::<char>::empty()) == seq![Seq::<char>::empty()]);
    assert(split_slash("reuse"@) =~= seq!["reuse"@]);
    assert("reuse/"@.drop_last() =~= "reuse"@);
    assert(split_slash("reuse/"@) =~= seq!["reuse"@, Seq::<char>::empty()]);
    lemma_split_append("reuse/"@, digits);
    assert(split_slash(data) =~= seq!["reuse"@, digits]);
    assert(data.subrange(0, 5) =~= "reuse"@);
    assert(first_seed(split_slash(data), 1) == Some(seed));
}

/// Writing a slot and reading it back, on the node guessed for its kind.
proof fn lemma_set_slot_then_get(w: WorkflowView, sl: Slot, v: SlotValue)
    requires
        sl.fits(v),
        set_slot(w, sl, v).1 is Ok,
    ensures
        get_slot(set_slot(w, sl, v).0, sl) == Ok::<SlotValue, AccessError>(v),
        same_shape(w, set_slot(w, sl, v).0),
        forall|j: int| 0 <= j < w.len() && j != guessed_index(w, sl.spec_kind()) ==> (#[trigger] set_slot(w, sl, v).0[j]) == w[j],
{
    lemma_guessed_index(w, sl.spec_kind());
    let i = guessed_index(w, sl.spec_kind());
    lemma_write_at_shape(w, i, sl, v);
    lemma_guessed_same(w, set_slot(w, sl, v).0, sl.spec_kind());
}

/// A parameter read after it was written gives back the value written:
/// whatever node a write of a field lands on, a read of the field finds it
/// there.
pub proof fn law_set_then_get_field(w: WorkflowView, f: Field, v: SlotValue)
    requires
        f.fits(v),
        set_field(w, f, v).1 is Ok,
    ensures
        get_field(set_field(w, f, v).0, f) == Ok::<SlotValue, AccessError>(v),
{
    let s1 = f.spec_primary();
    match f.spec_secondary() {
        None => {
            lemma_set_slot_then_get(w, s1, v);
        },
        Some(s2) => {
            if get_slot(w, s1) is Ok {
                lemma_set_slot_then_get(w, s1, v);
            } else {
                lemma_set_slot_then_get(w, s2, v);
                let w2 = set_slot(w, s2, v).0;
                lemma_guessed_same(w, w2, s1.spec_kind());
                lemma_guessed_index(w, s1.spec_kind());
                lemma_guessed_index(w, s2.spec_kind());
                let i1 = guessed_index(w, s1.spec_kind());
                if i1 >= 0 {
                    assert(w[i1].1.kind() != w[guessed_index(w, s2.spec_kind())].1.kind());
                    assert(w2[i1] == w[i1]);
                }
                assert(get_slot(w2, s1) is Err);
            }
        },
    }
}

/// A field can be written exactly when it can be read.
pub proof fn law_set_field_iff_get(w: WorkflowView, f: Field, v: SlotValue)
    requires
        f.fits(v),
    ensures
        set_field(w, f, v).1 is Ok <==> get_field(w, f) is Ok,
{
}

/// A write that fails leaves the workflow as it was.
pub proof fn law_failed_set_keeps_workflow(w: WorkflowView, f: Field, v: SlotValue)
    requires
        set_field(w, f, v).1 is Err,
    ensures
        set_field(w, f, v).0 == w,
{
}

/// A value written into a readable slot of a node reads back as written;
/// the node keeps its kind and its links, and every other slot reads as
/// before. (A slot that cannot be read is not written: see
/// `write_node_slot`, which then leaves the node as it was.)
pub proof fn law_write_then_read_slot(n: NodeView, s: Slot, v: SlotValue)
    requires
        s.fits(v),
        read_slot(n, s) is Ok,
    ensures
        read_slot(write_slot(n, s, v), s) == Ok::<SlotValue, AccessError>(v),
        write_slot(n, s, v).kind() == n.kind(),
        write_slot(n, s, v).connections() == n.connections(),
        forall|s2: Slot| s2 != s ==> #[trigger] read_slot(write_slot(n, s, v), s2) == read_slot(n, s2),
{
    lemma_write_slot(n, s, v);
}

/// Setting text-to-image defaults on the bot builder twice holds, setting
/// by setting, what setting once the merge of both requests holds: the
/// second request's settings win, and those it leaves unset keep the first
/// request's, or else the defaults set before. `first` is what the first
/// call holds.
pub proof fn law_txt2img_defaults_twice(
    before: Option<Txt2ImgRequest>,
    r1: Txt2ImgRequest,
    r2: Txt2ImgRequest,
    first: Txt2ImgRequest,
)
    requires
        first.same(txt2img_defaults_after(before, r1)),
    ensures
        txt2img_defaults_after(Some(first), r2).same(txt2img_defaults_after(before, r1.merged(r2))),
{
    broadcast use lemma_or_opt_assoc;

}

/// Setting image-to-image defaults on the bot builder twice holds, setting
/// by setting, what setting once the merge of both requests holds.
pub proof fn law_img2img_defaults_twice(
    before: Option<Img2ImgRequest>,
    r1: Img2ImgRequest,
    r2: Img2ImgRequest,
    first: Img2ImgRequest,
)
    requires
        first.same(img2img_defaults_after(before, r1)),
    ensures
        img2img_defaults_after(Some(first), r2).same(img2img_defaults_after(before, r1.merged(r2))),
{
    broadcast use lemma_or_opt_assoc;

}

} // verus!
