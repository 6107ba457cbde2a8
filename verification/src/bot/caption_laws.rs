//! Which lines the caption of a generated image holds.

use vstd::prelude::*;

use crate::bot::reply::{info_lines, number_line, opt_line, text_line, PartView};
use crate::numbers::{decimal, signed_decimal};
use crate::text::{is_blank, markdown_escaped};
use crate::params::image_params::ImageParams;

verus! {

/// Whether the first piece of text of line `l` begins with `t`.
pub open spec fn starts_with_text(l: Seq<PartView>, t: Seq<char>) -> bool {
    l.len() > 0 && t.is_prefix_of(l[0].0)
}

/// The lines of `lines` whose first piece of text begins with `t`, in order.
pub open spec fn lines_starting(lines: Seq<Seq<PartView>>, t: Seq<char>) -> Seq<Seq<PartView>> {
    lines.filter(|l: Seq<PartView>| starts_with_text(l, t))
}

/// Picking the lines that begin with `t` from two runs of lines one after
/// the other picks them from each.
pub proof fn lemma_lines_starting_add(a: Seq<Seq<PartView>>, b: Seq<Seq<PartView>>, t: Seq<char>)
    ensures
        lines_starting(a + b, t) == lines_starting(a, t) + lines_starting(b, t),
{
    Seq::filter_distributes_over_add(a, b, |l: Seq<PartView>| starts_with_text(l, t));
}

/// An optional line is picked exactly when it is there and begins with `t`.
pub proof fn lemma_lines_starting_opt(present: bool, l: Seq<PartView>, t: Seq<char>)
    ensures
        lines_starting(opt_line(present, l), t) == (if present && starts_with_text(l, t) {
            seq![l]
        } else {
            Seq::<Seq<PartView>>::empty()
        }),
{
    reveal_with_fuel(Seq::<_>::filter, 2);
    if present {
        assert(seq![l].drop_last() =~= Seq::<Seq<PartView>>::empty());
        assert(seq![l].last() == l);
        if starts_with_text(l, t) {
            assert(Seq::<Seq<PartView>>::empty().push(l) =~= seq![l]);
        }
    } else {
        assert(opt_line(present, l) =~= Seq::<Seq<PartView>>::empty());
    }
}

/// A text that differs from `t` at position `i` does not begin with `t`.
pub proof fn lemma_differs_at(t: Seq<char>, s: Seq<char>, i: int)
    requires
        0 <= i < t.len(),
        i < s.len(),
        t[i] != s[i],
    ensures
        !t.is_prefix_of(s),
{
    if t.is_prefix_of(s) {
        assert(s.subrange(0, t.len() as int)[i] == s[i]);
    }
}

/// The caption of an image has a line giving its negative prompt exactly when one is known and not
/// blank, and then only one: "Negative prompt: ", then the prompt escaped for
/// Markdown, in backticks.
pub proof fn law_caption_negative_prompt_line(p: ImageParams)
    ensures
        lines_starting(info_lines(p), "Negative prompt: "@) == match p.spec_negative_prompt() {
            Some(n) => if is_blank(n@) { Seq::<Seq<PartView>>::empty() } else { seq![text_line("Negative prompt: `"@ + markdown_escaped(n@) + "`"@)] },
            None => Seq::<Seq<PartView>>::empty(),
        },
{
    let t = "Negative prompt: "@;
    reveal_strlit("Negative prompt: ");
    reveal_strlit("Negative prompt: `");
    reveal_strlit("Steps: `");
    reveal_strlit("Sampler: `");
    reveal_strlit("CFG scale: `");
    reveal_strlit("Seed: `");
    reveal_strlit("Size: `");
    reveal_strlit("Model: `");
    reveal_strlit("Denoising strength: `");
    assert(t.len() == 17 && t[0] == 'N' && t[1] == 'e');
    let c1 = p.spec_negative_prompt() is Some && !is_blank(p.spec_negative_prompt()->0@);
    let l1 = text_line("Negative prompt: `"@ + markdown_escaped(p.spec_negative_prompt()->0@) + "`"@);
    let c2 = p.spec_steps() is Some;
    let l2 = text_line("Steps: `"@ + decimal(p.spec_steps()->0 as nat) + "`"@);
    let c3 = p.spec_sampler() is Some;
    let l3 = text_line("Sampler: `"@ + p.spec_sampler()->0@ + "`"@);
    let c4 = p.spec_cfg() is Some;
    let l4 = number_line("CFG scale: `"@, p.spec_cfg()->0, "`"@);
    let c5 = p.spec_seed() is Some;
    let l5 = text_line("Seed: `"@ + signed_decimal(p.spec_seed()->0 as int) + "`"@);
    let c6 = p.spec_width() is Some && p.spec_height() is Some;
    let l6 = text_line("Size: `"@ + decimal(p.spec_width()->0 as nat) + "×"@ + decimal(p.spec_height()->0 as nat) + "`"@);
    let c7 = p.spec_model() is Some;
    let l7 = text_line("Model: `"@ + p.spec_model()->0@ + "`"@);
    let c8 = p.spec_denoising() is Some;
    let l8 = number_line("Denoising strength: `"@, p.spec_denoising()->0, "`"@);
    assert(l1[0].0.subrange(0, 17) =~= t);
    assert(starts_with_text(l1, t));
    lemma_differs_at(t, l2[0].0, 0);
    lemma_differs_at(t, l3[0].0, 0);
    lemma_differs_at(t, l4[0].0, 0);
    lemma_differs_at(t, l5[0].0, 0);
    lemma_differs_at(t, l6[0].0, 0);
    lemma_differs_at(t, l7[0].0, 0);
    lemma_differs_at(t, l8[0].0, 0);
    let o1 = opt_line(c1, l1);
    let o2 = opt_line(c2, l2);
    let o3 = opt_line(c3, l3);
    let o4 = opt_line(c4, l4);
    let o5 = opt_line(c5, l5);
    let o6 = opt_line(c6, l6);
    let o7 = opt_line(c7, l7);
    let o8 = opt_line(c8, l8);
    assert(info_lines(p) == o1 + o2 + o3 + o4 + o5 + o6 + o7 + o8);
    lemma_lines_starting_opt(c1, l1, t);
    lemma_lines_starting_opt(c2, l2, t);
    lemma_lines_starting_opt(c3, l3, t);
    lemma_lines_starting_opt(c4, l4, t);
    lemma_lines_starting_opt(c5, l5, t);
    lemma_lines_starting_opt(c6, l6, t);
    lemma_lines_starting_opt(c7, l7, t);
    lemma_lines_starting_opt(c8, l8, t);
    lemma_lines_starting_add(o1, o2, t);
    lemma_lines_starting_add(o1 + o2, o3, t);
    lemma_lines_starting_add(o1 + o2 + o3, o4, t);
    lemma_lines_starting_add(o1 + o2 + o3 + o4, o5, t);
    lemma_lines_starting_add(o1 + o2 + o3 + o4 + o5, o6, t);
    lemma_lines_starting_add(o1 + o2 + o3 + o4 + o5 + o6, o7, t);
    lemma_lines_starting_add(o1 + o2 + o3 + o4 + o5 + o6 + o7, o8, t);
    assert(lines_starting(info_lines(p), t) =~= lines_starting(o1, t));
}

/// The caption of an image has a line giving its number of steps exactly when it is known, and then
/// only one: "Steps: ", then the number, in backticks.
pub proof fn law_caption_steps_line(p: ImageParams)
    ensures
        lines_starting(info_lines(p), "Steps: "@) == match p.spec_steps() {
            Some(n) => seq![text_line("Steps: `"@ + decimal(n as nat) + "`"@)],
            None => Seq::<Seq<PartView>>::empty(),
        },
{
    let t = "Steps: "@;
    reveal_strlit("Steps: ");
    reveal_strlit("Negative prompt: `");
    reveal_strlit("Steps: `");
    reveal_strlit("Sampler: `");
    reveal_strlit("CFG scale: `");
    reveal_strlit("Seed: `");
    reveal_strlit("Size: `");
    reveal_strlit("Model: `");
    reveal_strlit("Denoising strength: `");
    assert(t.len() == 7 && t[0] == 'S' && t[1] == 't');
    let c1 = p.spec_negative_prompt() is Some && !is_blank(p.spec_negative_prompt()->0@);
    let l1 = text_line("Negative prompt: `"@ + markdown_escaped(p.spec_negative_prompt()->0@) + "`"@);
    let c2 = p.spec_steps() is Some;
    let l2 = text_line("Steps: `"@ + decimal(p.spec_steps()->0 as nat) + "`"@);
    let c3 = p.spec_sampler() is Some;
    let l3 = text_line("Sampler: `"@ + p.spec_sampler()->0@ + "`"@);
    let c4 = p.spec_cfg() is Some;
    let l4 = number_line("CFG scale: `"@, p.spec_cfg()->0, "`"@);
    let c5 = p.spec_seed() is Some;
    let l5 = text_line("Seed: `"@ + signed_decimal(p.spec_seed()->0 as int) + "`"@);
    let c6 = p.spec_width() is Some && p.spec_height() is Some;
    let l6 = text_line("Size: `"@ + decimal(p.spec_width()->0 as nat) + "×"@ + decimal(p.spec_height()->0 as nat) + "`"@);
    let c7 = p.spec_model() is Some;
    let l7 = text_line("Model: `"@ + p.spec_model()->0@ + "`"@);
    let c8 = p.spec_denoising() is Some;
    let l8 = number_line("Denoising strength: `"@, p.spec_denoising()->0, "`"@);
    lemma_differs_at(t, l1[0].0, 0);
    assert(l2[0].0.subrange(0, 7) =~= t);
    assert(starts_with_text(l2, t));
    lemma_differs_at(t, l3[0].0, 1);
    lemma_differs_at(t, l4[0].0, 0);
    lemma_differs_at(t, l5[0].0, 1);
    lemma_differs_at(t, l6[0].0, 1);
    lemma_differs_at(t, l7[0].0, 0);
    lemma_differs_at(t, l8[0].0, 0);
    let o1 = opt_line(c1, l1);
    let o2 = opt_line(c2, l2);
    let o3 = opt_line(c3, l3);
    let o4 = opt_line(c4, l4);
    let o5 = opt_line(c5, l5);
    let o6 = opt_line(c6, l6);
    let o7 = opt_line(c7, l7);
    let o8 = opt_line(c8, l8);
    assert(info_lines(p) == o1 + o2 + o3 + o4 + o5 + o6 + o7 + o8);
    lemma_lines_starting_opt(c1, l1, t);
    lemma_lines_starting_opt(c2, l2, t);
    lemma_lines_starting_opt(c3, l3, t);
    lemma_lines_starting_opt(c4, l4, t);
    lemma_lines_starting_opt(c5, l5, t);
    lemma_lines_starting_opt(c6, l6, t);
    lemma_lines_starting_opt(c7, l7, t);
    lemma_lines_starting_opt(c8, l8, t);
    lemma_lines_starting_add(o1, o2, t);
    lemma_lines_starting_add(o1 + o2, o3, t);
    lemma_lines_starting_add(o1 + o2 + o3, o4, t);
    lemma_lines_starting_add(o1 + o2 + o3 + o4, o5, t);
    lemma_lines_starting_add(o1 + o2 + o3 + o4 + o5, o6, t);
    lemma_lines_starting_add(o1 + o2 + o3 + o4 + o5 + o6, o7, t);
    lemma_lines_starting_add(o1 + o2 + o3 + o4 + o5 + o6 + o7, o8, t);
    assert(lines_starting(info_lines(p), t) =~= lines_starting(o2, t));
}

/// The caption of an image has a line giving its sampler exactly when it is known, and then only one:
/// "Sampler: ", then the sampler's name, in backticks.
pub proof fn law_caption_sampler_line(p: ImageParams)
    ensures
        lines_starting(info_lines(p), "Sampler: "@) == match p.spec_sampler() {
            Some(n) => seq![text_line("Sampler: `"@ + n@ + "`"@)],
            None => Seq::<Seq<PartView>>::empty(),
        },
{
    let t = "Sampler: "@;
    reveal_strlit("Sampler: ");
    reveal_strlit("Negative prompt: `");
    reveal_strlit("Steps: `");
    reveal_strlit("Sampler: `");
    reveal_strlit("CFG scale: `");
    reveal_strlit("Seed: `");
    reveal_strlit("Size: `");
    reveal_strlit("Model: `");
    reveal_strlit("Denoising strength: `");
    assert(t.len() == 9 && t[0] == 'S' && t[1] == 'a');
    let c1 = p.spec_negative_prompt() is Some && !is_blank(p.spec_negative_prompt()->0@);
    let l1 = text_line("Negative prompt: `"@ + markdown_escaped(p.spec_negative_prompt()->0@) + "`"@);
    let c2 = p.spec_steps() is Some;
    let l2 = text_line("Steps: `"@ + decimal(p.spec_steps()->0 as nat) + "`"@);
    let c3 = p.spec_sampler() is Some;
    let l3 = text_line("Sampler: `"@ + p.spec_sampler()->0@ + "`"@);
    let c4 = p.spec_cfg() is Some;
    let l4 = number_line("CFG scale: `"@, p.spec_cfg()->0, "`"@);
    let c5 = p.spec_seed() is Some;
    let l5 = text_line("Seed: `"@ + signed_decimal(p.spec_seed()->0 as int) + "`"@);
    let c6 = p.spec_width() is Some && p.spec_height() is Some;
    let l6 = text_line("Size: `"@ + decimal(p.spec_width()->0 as nat) + "×"@ + decimal(p.spec_height()->0 as nat) + "`"@);
    let c7 = p.spec_model() is Some;
    let l7 = text_line("Model: `"@ + p.spec_model()->0@ + "`"@);
    let c8 = p.spec_denoising() is Some;
    let l8 = number_line("Denoising strength: `"@, p.spec_denoising()->0, "`"@);
    lemma_differs_at(t, l1[0].0, 0);
    lemma_differs_at(t, l2[0].0, 1);
    assert(l3[0].0.subrange(0, 9) =~= t);
    assert(starts_with_text(l3, t));
    lemma_differs_at(t, l4[0].0, 0);
    lemma_differs_at(t, l5[0].0, 1);
    lemma_differs_at(t, l6[0].0, 1);
    lemma_differs_at(t, l7[0].0, 0);
    lemma_differs_at(t, l8[0].0, 0);
    let o1 = opt_line(c1, l1);
    let o2 = opt_line(c2, l2);
    let o3 = opt_line(c3, l3);
    let o4 = opt_line(c4, l4);
    let o5 = opt_line(c5, l5);
    let o6 = opt_line(c6, l6);
    let o7 = opt_line(c7, l7);
    let o8 = opt_line(c8, l8);
    assert(info_lines(p) == o1 + o2 + o3 + o4 + o5 + o6 + o7 + o8);
    lemma_lines_starting_opt(c1, l1, t);
    lemma_lines_starting_opt(c2, l2, t);
    lemma_lines_starting_opt(c3, l3, t);
    lemma_lines_starting_opt(c4, l4, t);
    lemma_lines_starting_opt(c5, l5, t);
    lemma_lines_starting_opt(c6, l6, t);
    lemma_lines_starting_opt(c7, l7, t);
    lemma_lines_starting_opt(c8, l8, t);
    lemma_lines_starting_add(o1, o2, t);
    lemma_lines_starting_add(o1 + o2, o3, t);
    lemma_lines_starting_add(o1 + o2 + o3, o4, t);
    lemma_lines_starting_add(o1 + o2 + o3 + o4, o5, t);
    lemma_lines_starting_add(o1 + o2 + o3 + o4 + o5, o6, t);
    lemma_lines_starting_add(o1 + o2 + o3 + o4 + o5 + o6, o7, t);
    lemma_lines_starting_add(o1 + o2 + o3 + o4 + o5 + o6 + o7, o8, t);
    assert(lines_starting(info_lines(p), t) =~= lines_starting(o3, t));
}

/// The caption of an image has a line giving its CFG scale exactly when it is known, and then only one:
/// "CFG scale: ", then the value, in backticks.
pub proof fn law_caption_cfg_line(p: ImageParams)
    ensures
        lines_starting(info_lines(p), "CFG scale: "@) == match p.spec_cfg() {
            Some(v) => seq![number_line("CFG scale: `"@, v, "`"@)],
            None => Seq::<Seq<PartView>>::empty(),
        },
{
    let t = "CFG scale: "@;
    reveal_strlit("CFG scale: ");
    reveal_strlit("Negative prompt: `");
    reveal_strlit("Steps: `");
    reveal_strlit("Sampler: `");
    reveal_strlit("CFG scale: `");
    reveal_strlit("Seed: `");
    reveal_strlit("Size: `");
    reveal_strlit("Model: `");
    reveal_strlit("Denoising strength: `");
    assert(t.len() == 11 && t[0] == 'C' && t[1] == 'F');
    let c1 = p.spec_negative_prompt() is Some && !is_blank(p.spec_negative_prompt()->0@);
    let l1 = text_line("Negative prompt: `"@ + markdown_escaped(p.spec_negative_prompt()->0@) + "`"@);
    let c2 = p.spec_steps() is Some;
    let l2 = text_line("Steps: `"@ + decimal(p.spec_steps()->0 as nat) + "`"@);
    let c3 = p.spec_sampler() is Some;
    let l3 = text_line("Sampler: `"@ + p.spec_sampler()->0@ + "`"@);
    let c4 = p.spec_cfg() is Some;
    let l4 = number_line("CFG scale: `"@, p.spec_cfg()->0, "`"@);
    let c5 = p.spec_seed() is Some;
    let l5 = text_line("Seed: `"@ + signed_decimal(p.spec_seed()->0 as int) + "`"@);
    let c6 = p.spec_width() is Some && p.spec_height() is Some;
    let l6 = text_line("Size: `"@ + decimal(p.spec_width()->0 as nat) + "×"@ + decimal(p.spec_height()->0 as nat) + "`"@);
    let c7 = p.spec_model() is Some;
    let l7 = text_line("Model: `"@ + p.spec_model()->0@ + "`"@);
    let c8 = p.spec_denoising() is Some;
    let l8 = number_line("Denoising strength: `"@, p.spec_denoising()->0, "`"@);
    lemma_differs_at(t, l1[0].0, 0);
    lemma_differs_at(t, l2[0].0, 0);
    lemma_differs_at(t, l3[0].0, 0);
    assert(l4[0].0.subrange(0, 11) =~= t);
    assert(starts_with_text(l4, t));
    lemma_differs_at(t, l5[0].0, 0);
    lemma_differs_at(t, l6[0].0, 0);
    lemma_differs_at(t, l7[0].0, 0);
    lemma_differs_at(t, l8[0].0, 0);
    let o1 = opt_line(c1, l1);
    let o2 = opt_line(c2, l2);
    let o3 = opt_line(c3, l3);
    let o4 = opt_line(c4, l4);
    let o5 = opt_line(c5, l5);
    let o6 = opt_line(c6, l6);
    let o7 = opt_line(c7, l7);
    let o8 = opt_line(c8, l8);
    assert(info_lines(p) == o1 + o2 + o3 + o4 + o5 + o6 + o7 + o8);
    lemma_lines_starting_opt(c1, l1, t);
    lemma_lines_starting_opt(c2, l2, t);
    lemma_lines_starting_opt(c3, l3, t);
    lemma_lines_starting_opt(c4, l4, t);
    lemma_lines_starting_opt(c5, l5, t);
    lemma_lines_starting_opt(c6, l6, t);
    lemma_lines_starting_opt(c7, l7, t);
    lemma_lines_starting_opt(c8, l8, t);
    lemma_lines_starting_add(o1, o2, t);
    lemma_lines_starting_add(o1 + o2, o3, t);
    lemma_lines_starting_add(o1 + o2 + o3, o4, t);
    lemma_lines_starting_add(o1 + o2 + o3 + o4, o5, t);
    lemma_lines_starting_add(o1 + o2 + o3 + o4 + o5, o6, t);
    lemma_lines_starting_add(o1 + o2 + o3 + o4 + o5 + o6, o7, t);
    lemma_lines_starting_add(o1 + o2 + o3 + o4 + o5 + o6 + o7, o8, t);
    assert(lines_starting(info_lines(p), t) =~= lines_starting(o4, t));
}

/// The caption of an image has a line giving its seed exactly when it is known, and then only one:
/// "Seed: ", then the seed in decimal, in backticks.
pub proof fn law_caption_seed_line(p: ImageParams)
    ensures
        lines_starting(info_lines(p), "Seed: "@) == match p.spec_seed() {
            Some(n) => seq![text_line("Seed: `"@ + signed_decimal(n as int) + "`"@)],
            None => Seq::<Seq<PartView>>::empty(),
        },
{
    let t = "Seed: "@;
    reveal_strlit("Seed: ");
    reveal_strlit("Negative prompt: `");
    reveal_strlit("Steps: `");
    reveal_strlit("Sampler: `");
    reveal_strlit("CFG scale: `");
    reveal_strlit("Seed: `");
    reveal_strlit("Size: `");
    reveal_strlit("Model: `");
    reveal_strlit("Denoising strength: `");
    assert(t.len() == 6 && t[0] == 'S' && t[1] == 'e');
    let c1 = p.spec_negative_prompt() is Some && !is_blank(p.spec_negative_prompt()->0@);
    let l1 = text_line("Negative prompt: `"@ + markdown_escaped(p.spec_negative_prompt()->0@) + "`"@);
    let c2 = p.spec_steps() is Some;
    let l2 = text_line("Steps: `"@ + decimal(p.spec_steps()->0 as nat) + "`"@);
    let c3 = p.spec_sampler() is Some;
    let l3 = text_line("Sampler: `"@ + p.spec_sampler()->0@ + "`"@);
    let c4 = p.spec_cfg() is Some;
    let l4 = number_line("CFG scale: `"@, p.spec_cfg()->0, "`"@);
    let c5 = p.spec_seed() is Some;
    let l5 = text_line("Seed: `"@ + signed_decimal(p.spec_seed()->0 as int) + "`"@);
    let c6 = p.spec_width() is Some && p.spec_height() is Some;
    let l6 = text_line("Size: `"@ + decimal(p.spec_width()->0 as nat) + "×"@ + decimal(p.spec_height()->0 as nat) + "`"@);
    let c7 = p.spec_model() is Some;
    let l7 = text_line("Model: `"@ + p.spec_model()->0@ + "`"@);
    let c8 = p.spec_denoising() is Some;
    let l8 = number_line("Denoising strength: `"@, p.spec_denoising()->0, "`"@);
    lemma_differs_at(t, l1[0].0, 0);
    lemma_differs_at(t, l2[0].0, 1);
    lemma_differs_at(t, l3[0].0, 1);
    lemma_differs_at(t, l4[0].0, 0);
    assert(l5[0].0.subrange(0, 6) =~= t);
    assert(starts_with_text(l5, t));
    lemma_differs_at(t, l6[0].0, 1);
    lemma_differs_at(t, l7[0].0, 0);
    lemma_differs_at(t, l8[0].0, 0);
    let o1 = opt_line(c1, l1);
    let o2 = opt_line(c2, l2);
    let o3 = opt_line(c3, l3);
    let o4 = opt_line(c4, l4);
    let o5 = opt_line(c5, l5);
    let o6 = opt_line(c6, l6);
    let o7 = opt_line(c7, l7);
    let o8 = opt_line(c8, l8);
    assert(info_lines(p) == o1 + o2 + o3 + o4 + o5 + o6 + o7 + o8);
    lemma_lines_starting_opt(c1, l1, t);
    lemma_lines_starting_opt(c2, l2, t);
    lemma_lines_starting_opt(c3, l3, t);
    lemma_lines_starting_opt(c4, l4, t);
    lemma_lines_starting_opt(c5, l5, t);
    lemma_lines_starting_opt(c6, l6, t);
    lemma_lines_starting_opt(c7, l7, t);
    lemma_lines_starting_opt(c8, l8, t);
    lemma_lines_starting_add(o1, o2, t);
    lemma_lines_starting_add(o1 + o2, o3, t);
    lemma_lines_starting_add(o1 + o2 + o3, o4, t);
    lemma_lines_starting_add(o1 + o2 + o3 + o4, o5, t);
    lemma_lines_starting_add(o1 + o2 + o3 + o4 + o5, o6, t);
    lemma_lines_starting_add(o1 + o2 + o3 + o4 + o5 + o6, o7, t);
    lemma_lines_starting_add(o1 + o2 + o3 + o4 + o5 + o6 + o7, o8, t);
    assert(lines_starting(info_lines(p), t) =~= lines_starting(o5, t));
}

/// The caption of an image has a line giving its size exactly when both its width and its height are
/// known, and then only one: "Size: ", then the width, "×" and the height, in
/// backticks.
pub proof fn law_caption_size_line(p: ImageParams)
    ensures
        lines_starting(info_lines(p), "Size: "@) == match (p.spec_width(), p.spec_height()) {
            (Some(w), Some(h)) => seq![text_line("Size: `"@ + decimal(w as nat) + "×"@ + decimal(h as nat) + "`"@)],
            _ => Seq::<Seq<PartView>>::empty(),
        },
{
    let t = "Size: "@;
    reveal_strlit("Size: ");
    reveal_strlit("Negative prompt: `");
    reveal_strlit("Steps: `");
    reveal_strlit("Sampler: `");
    reveal_strlit("CFG scale: `");
    reveal_strlit("Seed: `");
    reveal_strlit("Size: `");
    reveal_strlit("Model: `");
    reveal_strlit("Denoising strength: `");
    assert(t.len() == 6 && t[0] == 'S' && t[1] == 'i');
    let c1 = p.spec_negative_prompt() is Some && !is_blank(p.spec_negative_prompt()->0@);
    let l1 = text_line("Negative prompt: `"@ + markdown_escaped(p.spec_negative_prompt()->0@) + "`"@);
    let c2 = p.spec_steps() is Some;
    let l2 = text_line("Steps: `"@ + decimal(p.spec_steps()->0 as nat) + "`"@);
    let c3 = p.spec_sampler() is Some;
    let l3 = text_line("Sampler: `"@ + p.spec_sampler()->0@ + "`"@);
    let c4 = p.spec_cfg() is Some;
    let l4 = number_line("CFG scale: `"@, p.spec_cfg()->0, "`"@);
    let c5 = p.spec_seed() is Some;
    let l5 = text_line("Seed: `"@ + signed_decimal(p.spec_seed()->0 as int) + "`"@);
    let c6 = p.spec_width() is Some && p.spec_height() is Some;
    let l6 = text_line("Size: `"@ + decimal(p.spec_width()->0 as nat) + "×"@ + decimal(p.spec_height()->0 as nat) + "`"@);
    let c7 = p.spec_model() is Some;
    let l7 = text_line("Model: `"@ + p.spec_model()->0@ + "`"@);
    let c8 = p.spec_denoising() is Some;
    let l8 = number_line("Denoising strength: `"@, p.spec_denoising()->0, "`"@);
    lemma_differs_at(t, l1[0].0, 0);
    lemma_differs_at(t, l2[0].0, 1);
    lemma_differs_at(t, l3[0].0, 1);
    lemma_differs_at(t, l4[0].0, 0);
    lemma_differs_at(t, l5[0].0, 1);
    assert(l6[0].0.subrange(0, 6) =~= t);
    assert(starts_with_text(l6, t));
    lemma_differs_at(t, l7[0].0, 0);
    lemma_differs_at(t, l8[0].0, 0);
    let o1 = opt_line(c1, l1);
    let o2 = opt_line(c2, l2);
    let o3 = opt_line(c3, l3);
    let o4 = opt_line(c4, l4);
    let o5 = opt_line(c5, l5);
    let o6 = opt_line(c6, l6);
    let o7 = opt_line(c7, l7);
    let o8 = opt_line(c8, l8);
    assert(info_lines(p) == o1 + o2 + o3 + o4 + o5 + o6 + o7 + o8);
    lemma_lines_starting_opt(c1, l1, t);
    lemma_lines_starting_opt(c2, l2, t);
    lemma_lines_starting_opt(c3, l3, t);
    lemma_lines_starting_opt(c4, l4, t);
    lemma_lines_starting_opt(c5, l5, t);
    lemma_lines_starting_opt(c6, l6, t);
    lemma_lines_starting_opt(c7, l7, t);
    lemma_lines_starting_opt(c8, l8, t);
    lemma_lines_starting_add(o1, o2, t);
    lemma_lines_starting_add(o1 + o2, o3, t);
    lemma_lines_starting_add(o1 + o2 + o3, o4, t);
    lemma_lines_starting_add(o1 + o2 + o3 + o4, o5, t);
    lemma_lines_starting_add(o1 + o2 + o3 + o4 + o5, o6, t);
    lemma_lines_starting_add(o1 + o2 + o3 + o4 + o5 + o6, o7, t);
    lemma_lines_starting_add(o1 + o2 + o3 + o4 + o5 + o6 + o7, o8, t);
    assert(lines_starting(info_lines(p), t) =~= lines_starting(o6, t));
}

/// The caption of an image has a line naming its model exactly when it is known, and then only one:
/// "Model: ", then the model, in backticks.
pub proof fn law_caption_model_line(p: ImageParams)
    ensures
        lines_starting(info_lines(p), "Model: "@) == match p.spec_model() {
            Some(n) => seq![text_line("Model: `"@ + n@ + "`"@)],
            None => Seq::<Seq<PartView>>::empty(),
        },
{
    let t = "Model: "@;
    reveal_strlit("Model: ");
    reveal_strlit("Negative prompt: `");
    reveal_strlit("Steps: `");
    reveal_strlit("Sampler: `");
    reveal_strlit("CFG scale: `");
    reveal_strlit("Seed: `");
    reveal_strlit("Size: `");
    reveal_strlit("Model: `");
    reveal_strlit("Denoising strength: `");
    assert(t.len() == 7 && t[0] == 'M' && t[1] == 'o');
    let c1 = p.spec_negative_prompt() is Some && !is_blank(p.spec_negative_prompt()->0@);
    let l1 = text_line("Negative prompt: `"@ + markdown_escaped(p.spec_negative_prompt()->0@) + "`"@);
    let c2 = p.spec_steps() is Some;
    let l2 = text_line("Steps: `"@ + decimal(p.spec_steps()->0 as nat) + "`"@);
    let c3 = p.spec_sampler() is Some;
    let l3 = text_line("Sampler: `"@ + p.spec_sampler()->0@ + "`"@);
    let c4 = p.spec_cfg() is Some;
    let l4 = number_line("CFG scale: `"@, p.spec_cfg()->0, "`"@);
    let c5 = p.spec_seed() is Some;
    let l5 = text_line("Seed: `"@ + signed_decimal(p.spec_seed()->0 as int) + "`"@);
    let c6 = p.spec_width() is Some && p.spec_height() is Some;
    let l6 = text_line("Size: `"@ + decimal(p.spec_width()->0 as nat) + "×"@ + decimal(p.spec_height()->0 as nat) + "`"@);
    let c7 = p.spec_model() is Some;
    let l7 = text_line("Model: `"@ + p.spec_model()->0@ + "`"@);
    let c8 = p.spec_denoising() is Some;
    let l8 = number_line("Denoising strength: `"@, p.spec_denoising()->0, "`"@);
    lemma_differs_at(t, l1[0].0, 0);
    lemma_differs_at(t, l2[0].0, 0);
    lemma_differs_at(t, l3[0].0, 0);
    lemma_differs_at(t, l4[0].0, 0);
    lemma_differs_at(t, l5[0].0, 0);
    lemma_differs_at(t, l6[0].0, 0);
    assert(l7[0].0.subrange(0, 7) =~= t);
    assert(starts_with_text(l7, t));
    lemma_differs_at(t, l8[0].0, 0);
    let o1 = opt_line(c1, l1);
    let o2 = opt_line(c2, l2);
    let o3 = opt_line(c3, l3);
    let o4 = opt_line(c4, l4);
    let o5 = opt_line(c5, l5);
    let o6 = opt_line(c6, l6);
    let o7 = opt_line(c7, l7);
    let o8 = opt_line(c8, l8);
    assert(info_lines(p) == o1 + o2 + o3 + o4 + o5 + o6 + o7 + o8);
    lemma_lines_starting_opt(c1, l1, t);
    lemma_lines_starting_opt(c2, l2, t);
    lemma_lines_starting_opt(c3, l3, t);
    lemma_lines_starting_opt(c4, l4, t);
    lemma_lines_starting_opt(c5, l5, t);
    lemma_lines_starting_opt(c6, l6, t);
    lemma_lines_starting_opt(c7, l7, t);
    lemma_lines_starting_opt(c8, l8, t);
    lemma_lines_starting_add(o1, o2, t);
    lemma_lines_starting_add(o1 + o2, o3, t);
    lemma_lines_starting_add(o1 + o2 + o3, o4, t);
    lemma_lines_starting_add(o1 + o2 + o3 + o4, o5, t);
    lemma_lines_starting_add(o1 + o2 + o3 + o4 + o5, o6, t);
    lemma_lines_starting_add(o1 + o2 + o3 + o4 + o5 + o6, o7, t);
    lemma_lines_starting_add(o1 + o2 + o3 + o4 + o5 + o6 + o7, o8, t);
    assert(lines_starting(info_lines(p), t) =~= lines_starting(o7, t));
}

/// The caption of an image has a line giving its denoising strength exactly when it is known, and then
/// only one: "Denoising strength: ", then the value, in backticks.
pub proof fn law_caption_denoising_line(p: ImageParams)
    ensures
        lines_starting(info_lines(p), "Denoising strength: "@) == match p.spec_denoising() {
            Some(v) => seq![number_line("Denoising strength: `"@, v, "`"@)],
            None => Seq::<Seq<PartView>>::empty(),
        },
{
    let t = "Denoising strength: "@;
    reveal_strlit("Denoising strength: ");
    reveal_strlit("Negative prompt: `");
    reveal_strlit("Steps: `");
    reveal_strlit("Sampler: `");
    reveal_strlit("CFG scale: `");
    reveal_strlit("Seed: `");
    reveal_strlit("Size: `");
    reveal_strlit("Model: `");
    reveal_strlit("Denoising strength: `");
    assert(t.len() == 20 && t[0] == 'D' && t[1] == 'e');
    let c1 = p.spec_negative_prompt() is Some && !is_blank(p.spec_negative_prompt()->0@);
    let l1 = text_line("Negative prompt: `"@ + markdown_escaped(p.spec_negative_prompt()->0@) + "`"@);
    let c2 = p.spec_steps() is Some;
    let l2 = text_line("Steps: `"@ + decimal(p.spec_steps()->0 as nat) + "`"@);
    let c3 = p.spec_sampler() is Some;
    let l3 = text_line("Sampler: `"@ + p.spec_sampler()->0@ + "`"@);
    let c4 = p.spec_cfg() is Some;
    let l4 = number_line("CFG scale: `"@, p.spec_cfg()->0, "`"@);
    let c5 = p.spec_seed() is Some;
    let l5 = text_line("Seed: `"@ + signed_decimal(p.spec_seed()->0 as int) + "`"@);
    let c6 = p.spec_width() is Some && p.spec_height() is Some;
    let l6 = text_line("Size: `"@ + decimal(p.spec_width()->0 as nat) + "×"@ + decimal(p.spec_height()->0 as nat) + "`"@);
    let c7 = p.spec_model() is Some;
    let l7 = text_line("Model: `"@ + p.spec_model()->0@ + "`"@);
    let c8 = p.spec_denoising() is Some;
    let l8 = number_line("Denoising strength: `"@, p.spec_denoising()->0, "`"@);
    lemma_differs_at(t, l1[0].0, 0);
    lemma_differs_at(t, l2[0].0, 0);
    lemma_differs_at(t, l3[0].0, 0);
    lemma_differs_at(t, l4[0].0, 0);
    lemma_differs_at(t, l5[0].0, 0);
    lemma_differs_at(t, l6[0].0, 0);
    lemma_differs_at(t, l7[0].0, 0);
    assert(l8[0].0.subrange(0, 20) =~= t);
    assert(starts_with_text(l8, t));
    let o1 = opt_line(c1, l1);
    let o2 = opt_line(c2, l2);
    let o3 = opt_line(c3, l3);
    let o4 = opt_line(c4, l4);
    let o5 = opt_line(c5, l5);
    let o6 = opt_line(c6, l6);
    let o7 = opt_line(c7, l7);
    let o8 = opt_line(c8, l8);
    assert(info_lines(p) == o1 + o2 + o3 + o4 + o5 + o6 + o7 + o8);
    lemma_lines_starting_opt(c1, l1, t);
    lemma_lines_starting_opt(c2, l2, t);
    lemma_lines_starting_opt(c3, l3, t);
    lemma_lines_starting_opt(c4, l4, t);
    lemma_lines_starting_opt(c5, l5, t);
    lemma_lines_starting_opt(c6, l6, t);
    lemma_lines_starting_opt(c7, l7, t);
    lemma_lines_starting_opt(c8, l8, t);
    lemma_lines_starting_add(o1, o2, t);
    lemma_lines_starting_add(o1 + o2, o3, t);
    lemma_lines_starting_add(o1 + o2 + o3, o4, t);
    lemma_lines_starting_add(o1 + o2 + o3 + o4, o5, t);
    lemma_lines_starting_add(o1 + o2 + o3 + o4 + o5, o6, t);
    lemma_lines_starting_add(o1 + o2 + o3 + o4 + o5 + o6, o7, t);
    lemma_lines_starting_add(o1 + o2 + o3 + o4 + o5 + o6 + o7, o8, t);
    assert(lines_starting(info_lines(p), t) =~= lines_starting(o8, t));
}

} // verus!
