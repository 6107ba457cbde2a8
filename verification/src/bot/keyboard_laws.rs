//! What the settings menu shows for each setting.

use vstd::prelude::*;

use crate::bot::settings::{opt_button, rows_of_two, settings_buttons, ButtonView, Settings};
use crate::float_bits::FloatBits;
use crate::numbers::{decimal, signed_decimal};

verus! {

/// The buttons of `bs` whose callback data is `d`, in order.
pub open spec fn buttons_with_data(bs: Seq<ButtonView>, d: Seq<char>) -> Seq<ButtonView> {
    bs.filter(|b: ButtonView| b.2 == d)
}

/// The keyboard rows hold the buttons in order, two to a row, the last row
/// holding one or two.
pub proof fn law_rows_of_two<T>(b: Seq<T>)
    ensures
        rows_of_two(b).flatten() == b,
        rows_of_two(b).len() == (b.len() + 1) / 2,
        forall|i: int| 0 <= i < rows_of_two(b).len() ==> 1 <= #[trigger] rows_of_two(b)[i].len() <= 2,
        forall|i: int| 0 <= i < rows_of_two(b).len() - 1 ==> #[trigger] rows_of_two(b)[i].len() == 2,
    decreases b.len(),
{
    let r = rows_of_two(b);
    if b.len() == 0 {
        assert(b =~= Seq::<T>::empty());
    } else if b.len() <= 2 {
        assert(r.drop_first() =~= Seq::<Seq<T>>::empty());
        assert(Seq::<Seq<T>>::empty().flatten() == Seq::<T>::empty());
        assert(r.first() + Seq::<T>::empty() =~= b);
    } else {
        law_rows_of_two(b.skip(2));
        assert(r.drop_first() =~= rows_of_two(b.skip(2)));
        assert(b.take(2) + b.skip(2) =~= b);
        assert forall|i: int| 0 <= i < r.len() implies 1 <= #[trigger] r[i].len() <= 2 by {
            if i > 0 {
                assert(r[i] == rows_of_two(b.skip(2))[i - 1]);
            }
        }
        assert forall|i: int| 0 <= i < r.len() - 1 implies #[trigger] r[i].len() == 2 by {
            if i > 0 {
                assert(r[i] == rows_of_two(b.skip(2))[i - 1]);
            }
        }
    }
}

/// Picking the buttons with data `d` from two runs of buttons one after the
/// other picks them from each.
pub proof fn lemma_with_data_add(a: Seq<ButtonView>, b: Seq<ButtonView>, d: Seq<char>)
    ensures
        buttons_with_data(a + b, d) == buttons_with_data(a, d) + buttons_with_data(b, d),
{
    Seq::filter_distributes_over_add(a, b, |x: ButtonView| x.2 == d);
}

/// A single button is picked exactly when its data is `d`.
pub proof fn lemma_with_data_single(b: ButtonView, d: Seq<char>)
    ensures
        buttons_with_data(seq![b], d) == (if b.2 == d { seq![b] } else { Seq::<ButtonView>::empty() }),
{
    reveal_with_fuel(Seq::<_>::filter, 2);
    assert(seq![b].drop_last() =~= Seq::<ButtonView>::empty());
    assert(seq![b].last() == b);
    if b.2 == d {
        assert(Seq::<ButtonView>::empty().push(b) =~= seq![b]);
    }
}

/// An optional button is picked exactly when it is there and its data is `d`.
pub proof fn lemma_with_data_opt(present: bool, b: ButtonView, d: Seq<char>)
    ensures
        buttons_with_data(opt_button(present, b), d) == (if present && b.2 == d {
            seq![b]
        } else {
            Seq::<ButtonView>::empty()
        }),
{
    if present {
        lemma_with_data_single(b, d);
    } else {
        reveal_with_fuel(Seq::<_>::filter, 2);
        assert(opt_button(present, b) =~= Seq::<ButtonView>::empty());
    }
}

/// The settings menu has a `settings_steps` button exactly when the number of steps is
/// set, and then only one; its label is the setting's name followed by the decimal digits of the number of steps.
pub proof fn law_settings_steps_button(s: Settings)
    ensures
        buttons_with_data(settings_buttons(s), "settings_steps"@) == match s.steps {
            Some(v) => seq![("Steps: "@ + decimal(v as nat), None, "settings_steps"@)],
            None => Seq::<ButtonView>::empty(),
        },
{
    reveal_strlit("settings_steps");
    assert("settings_steps"@.len() == 14 && "settings_steps"@[9] == 's');
    reveal_strlit("settings_seed");
    assert("settings_seed"@.len() == 13 && "settings_seed"@[9] == 's');
    reveal_strlit("settings_count");
    assert("settings_count"@.len() == 14 && "settings_count"@[9] == 'c');
    reveal_strlit("settings_cfg");
    assert("settings_cfg"@.len() == 12 && "settings_cfg"@[9] == 'c');
    reveal_strlit("settings_width");
    assert("settings_width"@.len() == 14 && "settings_width"@[9] == 'w');
    reveal_strlit("settings_height");
    assert("settings_height"@.len() == 15 && "settings_height"@[9] == 'h');
    reveal_strlit("settings_negative");
    assert("settings_negative"@.len() == 17 && "settings_negative"@[9] == 'n');
    reveal_strlit("settings_denoising");
    assert("settings_denoising"@.len() == 18 && "settings_denoising"@[9] == 'd');
    reveal_strlit("settings_back");
    assert("settings_back"@.len() == 13 && "settings_back"@[9] == 'b');
    let d = "settings_steps"@;
    let o1 = opt_button(s.steps is Some, ("Steps: "@ + decimal(s.steps->0 as nat), None, "settings_steps"@));
    lemma_with_data_opt(s.steps is Some, ("Steps: "@ + decimal(s.steps->0 as nat), None, "settings_steps"@), d);
    let o2 = opt_button(s.seed is Some, ("Seed: "@ + signed_decimal(s.seed->0 as int), None, "settings_seed"@));
    lemma_with_data_opt(s.seed is Some, ("Seed: "@ + signed_decimal(s.seed->0 as int), None, "settings_seed"@), d);
    let o3 = opt_button(s.n_iter is Some, ("Batch Count: "@ + decimal(s.n_iter->0 as nat), None, "settings_count"@));
    lemma_with_data_opt(s.n_iter is Some, ("Batch Count: "@ + decimal(s.n_iter->0 as nat), None, "settings_count"@), d);
    let o4 = opt_button(s.cfg_scale is Some, ("CFG Scale: "@, s.cfg_scale, "settings_cfg"@));
    lemma_with_data_opt(s.cfg_scale is Some, ("CFG Scale: "@, s.cfg_scale, "settings_cfg"@), d);
    let o5 = opt_button(s.width is Some, ("Width: "@ + decimal(s.width->0 as nat), None, "settings_width"@));
    lemma_with_data_opt(s.width is Some, ("Width: "@ + decimal(s.width->0 as nat), None, "settings_width"@), d);
    let o6 = opt_button(s.height is Some, ("Height: "@ + decimal(s.height->0 as nat), None, "settings_height"@));
    lemma_with_data_opt(s.height is Some, ("Height: "@ + decimal(s.height->0 as nat), None, "settings_height"@), d);
    let o7 = opt_button(s.negative_prompt is Some, ("Negative Prompt"@, None, "settings_negative"@));
    lemma_with_data_opt(s.negative_prompt is Some, ("Negative Prompt"@, None, "settings_negative"@), d);
    let o8 = opt_button(s.denoising_strength is Some, ("Denoising Strength: "@, s.denoising_strength, "settings_denoising"@));
    lemma_with_data_opt(s.denoising_strength is Some, ("Denoising Strength: "@, s.denoising_strength, "settings_denoising"@), d);
    let o9 = seq![("Cancel"@, None::<FloatBits>, "settings_back"@)];
    lemma_with_data_single(("Cancel"@, None::<FloatBits>, "settings_back"@), d);
    assert(settings_buttons(s) == o1 + o2 + o3 + o4 + o5 + o6 + o7 + o8 + o9);
    lemma_with_data_add(o1, o2, d);
    lemma_with_data_add(o1 + o2, o3, d);
    lemma_with_data_add(o1 + o2 + o3, o4, d);
    lemma_with_data_add(o1 + o2 + o3 + o4, o5, d);
    lemma_with_data_add(o1 + o2 + o3 + o4 + o5, o6, d);
    lemma_with_data_add(o1 + o2 + o3 + o4 + o5 + o6, o7, d);
    lemma_with_data_add(o1 + o2 + o3 + o4 + o5 + o6 + o7, o8, d);
    lemma_with_data_add(o1 + o2 + o3 + o4 + o5 + o6 + o7 + o8, o9, d);
    assert(buttons_with_data(settings_buttons(s), d) =~= match s.steps {
            Some(v) => seq![("Steps: "@ + decimal(v as nat), None, "settings_steps"@)],
            None => Seq::<ButtonView>::empty(),
        });
}

/// The settings menu has a `settings_seed` button exactly when the seed is
/// set, and then only one; its label is the setting's name followed by the decimal digits of the seed, with a minus sign when negative.
pub proof fn law_settings_seed_button(s: Settings)
    ensures
        buttons_with_data(settings_buttons(s), "settings_seed"@) == match s.seed {
            Some(v) => seq![("Seed: "@ + signed_decimal(v as int), None, "settings_seed"@)],
            None => Seq::<ButtonView>::empty(),
        },
{
    reveal_strlit("settings_steps");
    assert("settings_steps"@.len() == 14 && "settings_steps"@[9] == 's');
    reveal_strlit("settings_seed");
    assert("settings_seed"@.len() == 13 && "settings_seed"@[9] == 's');
    reveal_strlit("settings_count");
    assert("settings_count"@.len() == 14 && "settings_count"@[9] == 'c');
    reveal_strlit("settings_cfg");
    assert("settings_cfg"@.len() == 12 && "settings_cfg"@[9] == 'c');
    reveal_strlit("settings_width");
    assert("settings_width"@.len() == 14 && "settings_width"@[9] == 'w');
    reveal_strlit("settings_height");
    assert("settings_height"@.len() == 15 && "settings_height"@[9] == 'h');
    reveal_strlit("settings_negative");
    assert("settings_negative"@.len() == 17 && "settings_negative"@[9] == 'n');
    reveal_strlit("settings_denoising");
    assert("settings_denoising"@.len() == 18 && "settings_denoising"@[9] == 'd');
    reveal_strlit("settings_back");
    assert("settings_back"@.len() == 13 && "settings_back"@[9] == 'b');
    let d = "settings_seed"@;
    let o1 = opt_button(s.steps is Some, ("Steps: "@ + decimal(s.steps->0 as nat), None, "settings_steps"@));
    lemma_with_data_opt(s.steps is Some, ("Steps: "@ + decimal(s.steps->0 as nat), None, "settings_steps"@), d);
    let o2 = opt_button(s.seed is Some, ("Seed: "@ + signed_decimal(s.seed->0 as int), None, "settings_seed"@));
    lemma_with_data_opt(s.seed is Some, ("Seed: "@ + signed_decimal(s.seed->0 as int), None, "settings_seed"@), d);
    let o3 = opt_button(s.n_iter is Some, ("Batch Count: "@ + decimal(s.n_iter->0 as nat), None, "settings_count"@));
    lemma_with_data_opt(s.n_iter is Some, ("Batch Count: "@ + decimal(s.n_iter->0 as nat), None, "settings_count"@), d);
    let o4 = opt_button(s.cfg_scale is Some, ("CFG Scale: "@, s.cfg_scale, "settings_cfg"@));
    lemma_with_data_opt(s.cfg_scale is Some, ("CFG Scale: "@, s.cfg_scale, "settings_cfg"@), d);
    let o5 = opt_button(s.width is Some, ("Width: "@ + decimal(s.width->0 as nat), None, "settings_width"@));
    lemma_with_data_opt(s.width is Some, ("Width: "@ + decimal(s.width->0 as nat), None, "settings_width"@), d);
    let o6 = opt_button(s.height is Some, ("Height: "@ + decimal(s.height->0 as nat), None, "settings_height"@));
    lemma_with_data_opt(s.height is Some, ("Height: "@ + decimal(s.height->0 as nat), None, "settings_height"@), d);
    let o7 = opt_button(s.negative_prompt is Some, ("Negative Prompt"@, None, "settings_negative"@));
    lemma_with_data_opt(s.negative_prompt is Some, ("Negative Prompt"@, None, "settings_negative"@), d);
    let o8 = opt_button(s.denoising_strength is Some, ("Denoising Strength: "@, s.denoising_strength, "settings_denoising"@));
    lemma_with_data_opt(s.denoising_strength is Some, ("Denoising Strength: "@, s.denoising_strength, "settings_denoising"@), d);
    let o9 = seq![("Cancel"@, None::<FloatBits>, "settings_back"@)];
    lemma_with_data_single(("Cancel"@, None::<FloatBits>, "settings_back"@), d);
    assert(settings_buttons(s) == o1 + o2 + o3 + o4 + o5 + o6 + o7 + o8 + o9);
    lemma_with_data_add(o1, o2, d);
    lemma_with_data_add(o1 + o2, o3, d);
    lemma_with_data_add(o1 + o2 + o3, o4, d);
    lemma_with_data_add(o1 + o2 + o3 + o4, o5, d);
    lemma_with_data_add(o1 + o2 + o3 + o4 + o5, o6, d);
    lemma_with_data_add(o1 + o2 + o3 + o4 + o5 + o6, o7, d);
    lemma_with_data_add(o1 + o2 + o3 + o4 + o5 + o6 + o7, o8, d);
    lemma_with_data_add(o1 + o2 + o3 + o4 + o5 + o6 + o7 + o8, o9, d);
    assert(buttons_with_data(settings_buttons(s), d) =~= match s.seed {
            Some(v) => seq![("Seed: "@ + signed_decimal(v as int), None, "settings_seed"@)],
            None => Seq::<ButtonView>::empty(),
        });
}

/// The settings menu has a `settings_count` button exactly when the batch count is
/// set, and then only one; its label is the setting's name followed by the decimal digits of the batch count.
pub proof fn law_settings_count_button(s: Settings)
    ensures
        buttons_with_data(settings_buttons(s), "settings_count"@) == match s.n_iter {
            Some(v) => seq![("Batch Count: "@ + decimal(v as nat), None, "settings_count"@)],
            None => Seq::<ButtonView>::empty(),
        },
{
    reveal_strlit("settings_steps");
    assert("settings_steps"@.len() == 14 && "settings_steps"@[9] == 's');
    reveal_strlit("settings_seed");
    assert("settings_seed"@.len() == 13 && "settings_seed"@[9] == 's');
    reveal_strlit("settings_count");
    assert("settings_count"@.len() == 14 && "settings_count"@[9] == 'c');
    reveal_strlit("settings_cfg");
    assert("settings_cfg"@.len() == 12 && "settings_cfg"@[9] == 'c');
    reveal_strlit("settings_width");
    assert("settings_width"@.len() == 14 && "settings_width"@[9] == 'w');
    reveal_strlit("settings_height");
    assert("settings_height"@.len() == 15 && "settings_height"@[9] == 'h');
    reveal_strlit("settings_negative");
    assert("settings_negative"@.len() == 17 && "settings_negative"@[9] == 'n');
    reveal_strlit("settings_denoising");
    assert("settings_denoising"@.len() == 18 && "settings_denoising"@[9] == 'd');
    reveal_strlit("settings_back");
    assert("settings_back"@.len() == 13 && "settings_back"@[9] == 'b');
    let d = "settings_count"@;
    let o1 = opt_button(s.steps is Some, ("Steps: "@ + decimal(s.steps->0 as nat), None, "settings_steps"@));
    lemma_with_data_opt(s.steps is Some, ("Steps: "@ + decimal(s.steps->0 as nat), None, "settings_steps"@), d);
    let o2 = opt_button(s.seed is Some, ("Seed: "@ + signed_decimal(s.seed->0 as int), None, "settings_seed"@));
    lemma_with_data_opt(s.seed is Some, ("Seed: "@ + signed_decimal(s.seed->0 as int), None, "settings_seed"@), d);
    let o3 = opt_button(s.n_iter is Some, ("Batch Count: "@ + decimal(s.n_iter->0 as nat), None, "settings_count"@));
    lemma_with_data_opt(s.n_iter is Some, ("Batch Count: "@ + decimal(s.n_iter->0 as nat), None, "settings_count"@), d);
    let o4 = opt_button(s.cfg_scale is Some, ("CFG Scale: "@, s.cfg_scale, "settings_cfg"@));
    lemma_with_data_opt(s.cfg_scale is Some, ("CFG Scale: "@, s.cfg_scale, "settings_cfg"@), d);
    let o5 = opt_button(s.width is Some, ("Width: "@ + decimal(s.width->0 as nat), None, "settings_width"@));
    lemma_with_data_opt(s.width is Some, ("Width: "@ + decimal(s.width->0 as nat), None, "settings_width"@), d);
    let o6 = opt_button(s.height is Some, ("Height: "@ + decimal(s.height->0 as nat), None, "settings_height"@));
    lemma_with_data_opt(s.height is Some, ("Height: "@ + decimal(s.height->0 as nat), None, "settings_height"@), d);
    let o7 = opt_button(s.negative_prompt is Some, ("Negative Prompt"@, None, "settings_negative"@));
    lemma_with_data_opt(s.negative_prompt is Some, ("Negative Prompt"@, None, "settings_negative"@), d);
    let o8 = opt_button(s.denoising_strength is Some, ("Denoising Strength: "@, s.denoising_strength, "settings_denoising"@));
    lemma_with_data_opt(s.denoising_strength is Some, ("Denoising Strength: "@, s.denoising_strength, "settings_denoising"@), d);
    let o9 = seq![("Cancel"@, None::<FloatBits>, "settings_back"@)];
    lemma_with_data_single(("Cancel"@, None::<FloatBits>, "settings_back"@), d);
    assert(settings_buttons(s) == o1 + o2 + o3 + o4 + o5 + o6 + o7 + o8 + o9);
    lemma_with_data_add(o1, o2, d);
    lemma_with_data_add(o1 + o2, o3, d);
    lemma_with_data_add(o1 + o2 + o3, o4, d);
    lemma_with_data_add(o1 + o2 + o3 + o4, o5, d);
    lemma_with_data_add(o1 + o2 + o3 + o4 + o5, o6, d);
    lemma_with_data_add(o1 + o2 + o3 + o4 + o5 + o6, o7, d);
    lemma_with_data_add(o1 + o2 + o3 + o4 + o5 + o6 + o7, o8, d);
    lemma_with_data_add(o1 + o2 + o3 + o4 + o5 + o6 + o7 + o8, o9, d);
    assert(buttons_with_data(settings_buttons(s), d) =~= match s.n_iter {
            Some(v) => seq![("Batch Count: "@ + decimal(v as nat), None, "settings_count"@)],
            None => Seq::<ButtonView>::empty(),
        });
}

/// The settings menu has a `settings_cfg` button exactly when the CFG scale is
/// set, and then only one; its label is the setting's name, shown with the CFG scale.
pub proof fn law_settings_cfg_button(s: Settings)
    ensures
        buttons_with_data(settings_buttons(s), "settings_cfg"@) == match s.cfg_scale {
            Some(v) => seq![("CFG Scale: "@, Some(v), "settings_cfg"@)],
            None => Seq::<ButtonView>::empty(),
        },
{
    reveal_strlit("settings_steps");
    assert("settings_steps"@.len() == 14 && "settings_steps"@[9] == 's');
    reveal_strlit("settings_seed");
    assert("settings_seed"@.len() == 13 && "settings_seed"@[9] == 's');
    reveal_strlit("settings_count");
    assert("settings_count"@.len() == 14 && "settings_count"@[9] == 'c');
    reveal_strlit("settings_cfg");
    assert("settings_cfg"@.len() == 12 && "settings_cfg"@[9] == 'c');
    reveal_strlit("settings_width");
    assert("settings_width"@.len() == 14 && "settings_width"@[9] == 'w');
    reveal_strlit("settings_height");
    assert("settings_height"@.len() == 15 && "settings_height"@[9] == 'h');
    reveal_strlit("settings_negative");
    assert("settings_negative"@.len() == 17 && "settings_negative"@[9] == 'n');
    reveal_strlit("settings_denoising");
    assert("settings_denoising"@.len() == 18 && "settings_denoising"@[9] == 'd');
    reveal_strlit("settings_back");
    assert("settings_back"@.len() == 13 && "settings_back"@[9] == 'b');
    let d = "settings_cfg"@;
    let o1 = opt_button(s.steps is Some, ("Steps: "@ + decimal(s.steps->0 as nat), None, "settings_steps"@));
    lemma_with_data_opt(s.steps is Some, ("Steps: "@ + decimal(s.steps->0 as nat), None, "settings_steps"@), d);
    let o2 = opt_button(s.seed is Some, ("Seed: "@ + signed_decimal(s.seed->0 as int), None, "settings_seed"@));
    lemma_with_data_opt(s.seed is Some, ("Seed: "@ + signed_decimal(s.seed->0 as int), None, "settings_seed"@), d);
    let o3 = opt_button(s.n_iter is Some, ("Batch Count: "@ + decimal(s.n_iter->0 as nat), None, "settings_count"@));
    lemma_with_data_opt(s.n_iter is Some, ("Batch Count: "@ + decimal(s.n_iter->0 as nat), None, "settings_count"@), d);
    let o4 = opt_button(s.cfg_scale is Some, ("CFG Scale: "@, s.cfg_scale, "settings_cfg"@));
    lemma_with_data_opt(s.cfg_scale is Some, ("CFG Scale: "@, s.cfg_scale, "settings_cfg"@), d);
    let o5 = opt_button(s.width is Some, ("Width: "@ + decimal(s.width->0 as nat), None, "settings_width"@));
    lemma_with_data_opt(s.width is Some, ("Width: "@ + decimal(s.width->0 as nat), None, "settings_width"@), d);
    let o6 = opt_button(s.height is Some, ("Height: "@ + decimal(s.height->0 as nat), None, "settings_height"@));
    lemma_with_data_opt(s.height is Some, ("Height: "@ + decimal(s.height->0 as nat), None, "settings_height"@), d);
    let o7 = opt_button(s.negative_prompt is Some, ("Negative Prompt"@, None, "settings_negative"@));
    lemma_with_data_opt(s.negative_prompt is Some, ("Negative Prompt"@, None, "settings_negative"@), d);
    let o8 = opt_button(s.denoising_strength is Some, ("Denoising Strength: "@, s.denoising_strength, "settings_denoising"@));
    lemma_with_data_opt(s.denoising_strength is Some, ("Denoising Strength: "@, s.denoising_strength, "settings_denoising"@), d);
    let o9 = seq![("Cancel"@, None::<FloatBits>, "settings_back"@)];
    lemma_with_data_single(("Cancel"@, None::<FloatBits>, "settings_back"@), d);
    assert(settings_buttons(s) == o1 + o2 + o3 + o4 + o5 + o6 + o7 + o8 + o9);
    lemma_with_data_add(o1, o2, d);
    lemma_with_data_add(o1 + o2, o3, d);
    lemma_with_data_add(o1 + o2 + o3, o4, d);
    lemma_with_data_add(o1 + o2 + o3 + o4, o5, d);
    lemma_with_data_add(o1 + o2 + o3 + o4 + o5, o6, d);
    lemma_with_data_add(o1 + o2 + o3 + o4 + o5 + o6, o7, d);
    lemma_with_data_add(o1 + o2 + o3 + o4 + o5 + o6 + o7, o8, d);
    lemma_with_data_add(o1 + o2 + o3 + o4 + o5 + o6 + o7 + o8, o9, d);
    assert(buttons_with_data(settings_buttons(s), d) =~= match s.cfg_scale {
            Some(v) => seq![("CFG Scale: "@, Some(v), "settings_cfg"@)],
            None => Seq::<ButtonView>::empty(),
        });
}

/// The settings menu has a `settings_width` button exactly when the width is
/// set, and then only one; its label is the setting's name followed by the decimal digits of the width.
pub proof fn law_settings_width_button(s: Settings)
    ensures
        buttons_with_data(settings_buttons(s), "settings_width"@) == match s.width {
            Some(v) => seq![("Width: "@ + decimal(v as nat), None, "settings_width"@)],
            None => Seq::<ButtonView>::empty(),
        },
{
    reveal_strlit("settings_steps");
    assert("settings_steps"@.len() == 14 && "settings_steps"@[9] == 's');
    reveal_strlit("settings_seed");
    assert("settings_seed"@.len() == 13 && "settings_seed"@[9] == 's');
    reveal_strlit("settings_count");
    assert("settings_count"@.len() == 14 && "settings_count"@[9] == 'c');
    reveal_strlit("settings_cfg");
    assert("settings_cfg"@.len() == 12 && "settings_cfg"@[9] == 'c');
    reveal_strlit("settings_width");
    assert("settings_width"@.len() == 14 && "settings_width"@[9] == 'w');
    reveal_strlit("settings_height");
    assert("settings_height"@.len() == 15 && "settings_height"@[9] == 'h');
    reveal_strlit("settings_negative");
    assert("settings_negative"@.len() == 17 && "settings_negative"@[9] == 'n');
    reveal_strlit("settings_denoising");
    assert("settings_denoising"@.len() == 18 && "settings_denoising"@[9] == 'd');
    reveal_strlit("settings_back");
    assert("settings_back"@.len() == 13 && "settings_back"@[9] == 'b');
    let d = "settings_width"@;
    let o1 = opt_button(s.steps is Some, ("Steps: "@ + decimal(s.steps->0 as nat), None, "settings_steps"@));
    lemma_with_data_opt(s.steps is Some, ("Steps: "@ + decimal(s.steps->0 as nat), None, "settings_steps"@), d);
    let o2 = opt_button(s.seed is Some, ("Seed: "@ + signed_decimal(s.seed->0 as int), None, "settings_seed"@));
    lemma_with_data_opt(s.seed is Some, ("Seed: "@ + signed_decimal(s.seed->0 as int), None, "settings_seed"@), d);
    let o3 = opt_button(s.n_iter is Some, ("Batch Count: "@ + decimal(s.n_iter->0 as nat), None, "settings_count"@));
    lemma_with_data_opt(s.n_iter is Some, ("Batch Count: "@ + decimal(s.n_iter->0 as nat), None, "settings_count"@), d);
    let o4 = opt_button(s.cfg_scale is Some, ("CFG Scale: "@, s.cfg_scale, "settings_cfg"@));
    lemma_with_data_opt(s.cfg_scale is Some, ("CFG Scale: "@, s.cfg_scale, "settings_cfg"@), d);
    let o5 = opt_button(s.width is Some, ("Width: "@ + decimal(s.width->0 as nat), None, "settings_width"@));
    lemma_with_data_opt(s.width is Some, ("Width: "@ + decimal(s.width->0 as nat), None, "settings_width"@), d);
    let o6 = opt_button(s.height is Some, ("Height: "@ + decimal(s.height->0 as nat), None, "settings_height"@));
    lemma_with_data_opt(s.height is Some, ("Height: "@ + decimal(s.height->0 as nat), None, "settings_height"@), d);
    let o7 = opt_button(s.negative_prompt is Some, ("Negative Prompt"@, None, "settings_negative"@));
    lemma_with_data_opt(s.negative_prompt is Some, ("Negative Prompt"@, None, "settings_negative"@), d);
    let o8 = opt_button(s.denoising_strength is Some, ("Denoising Strength: "@, s.denoising_strength, "settings_denoising"@));
    lemma_with_data_opt(s.denoising_strength is Some, ("Denoising Strength: "@, s.denoising_strength, "settings_denoising"@), d);
    let o9 = seq![("Cancel"@, None::<FloatBits>, "settings_back"@)];
    lemma_with_data_single(("Cancel"@, None::<FloatBits>, "settings_back"@), d);
    assert(settings_buttons(s) == o1 + o2 + o3 + o4 + o5 + o6 + o7 + o8 + o9);
    lemma_with_data_add(o1, o2, d);
    lemma_with_data_add(o1 + o2, o3, d);
    lemma_with_data_add(o1 + o2 + o3, o4, d);
    lemma_with_data_add(o1 + o2 + o3 + o4, o5, d);
    lemma_with_data_add(o1 + o2 + o3 + o4 + o5, o6, d);
    lemma_with_data_add(o1 + o2 + o3 + o4 + o5 + o6, o7, d);
    lemma_with_data_add(o1 + o2 + o3 + o4 + o5 + o6 + o7, o8, d);
    lemma_with_data_add(o1 + o2 + o3 + o4 + o5 + o6 + o7 + o8, o9, d);
    assert(buttons_with_data(settings_buttons(s), d) =~= match s.width {
            Some(v) => seq![("Width: "@ + decimal(v as nat), None, "settings_width"@)],
            None => Seq::<ButtonView>::empty(),
        });
}

/// The settings menu has a `settings_height` button exactly when the height is
/// set, and then only one; its label is the setting's name followed by the decimal digits of the height.
pub proof fn law_settings_height_button(s: Settings)
    ensures
        buttons_with_data(settings_buttons(s), "settings_height"@) == match s.height {
            Some(v) => seq![("Height: "@ + decimal(v as nat), None, "settings_height"@)],
            None => Seq::<ButtonView>::empty(),
        },
{
    reveal_strlit("settings_steps");
    assert("settings_steps"@.len() == 14 && "settings_steps"@[9] == 's');
    reveal_strlit("settings_seed");
    assert("settings_seed"@.len() == 13 && "settings_seed"@[9] == 's');
    reveal_strlit("settings_count");
    assert("settings_count"@.len() == 14 && "settings_count"@[9] == 'c');
    reveal_strlit("settings_cfg");
    assert("settings_cfg"@.len() == 12 && "settings_cfg"@[9] == 'c');
    reveal_strlit("settings_width");
    assert("settings_width"@.len() == 14 && "settings_width"@[9] == 'w');
    reveal_strlit("settings_height");
    assert("settings_height"@.len() == 15 && "settings_height"@[9] == 'h');
    reveal_strlit("settings_negative");
    assert("settings_negative"@.len() == 17 && "settings_negative"@[9] == 'n');
    reveal_strlit("settings_denoising");
    assert("settings_denoising"@.len() == 18 && "settings_denoising"@[9] == 'd');
    reveal_strlit("settings_back");
    assert("settings_back"@.len() == 13 && "settings_back"@[9] == 'b');
    let d = "settings_height"@;
    let o1 = opt_button(s.steps is Some, ("Steps: "@ + decimal(s.steps->0 as nat), None, "settings_steps"@));
    lemma_with_data_opt(s.steps is Some, ("Steps: "@ + decimal(s.steps->0 as nat), None, "settings_steps"@), d);
    let o2 = opt_button(s.seed is Some, ("Seed: "@ + signed_decimal(s.seed->0 as int), None, "settings_seed"@));
    lemma_with_data_opt(s.seed is Some, ("Seed: "@ + signed_decimal(s.seed->0 as int), None, "settings_seed"@), d);
    let o3 = opt_button(s.n_iter is Some, ("Batch Count: "@ + decimal(s.n_iter->0 as nat), None, "settings_count"@));
    lemma_with_data_opt(s.n_iter is Some, ("Batch Count: "@ + decimal(s.n_iter->0 as nat), None, "settings_count"@), d);
    let o4 = opt_button(s.cfg_scale is Some, ("CFG Scale: "@, s.cfg_scale, "settings_cfg"@));
    lemma_with_data_opt(s.cfg_scale is Some, ("CFG Scale: "@, s.cfg_scale, "settings_cfg"@), d);
    let o5 = opt_button(s.width is Some, ("Width: "@ + decimal(s.width->0 as nat), None, "settings_width"@));
    lemma_with_data_opt(s.width is Some, ("Width: "@ + decimal(s.width->0 as nat), None, "settings_width"@), d);
    let o6 = opt_button(s.height is Some, ("Height: "@ + decimal(s.height->0 as nat), None, "settings_height"@));
    lemma_with_data_opt(s.height is Some, ("Height: "@ + decimal(s.height->0 as nat), None, "settings_height"@), d);
    let o7 = opt_button(s.negative_prompt is Some, ("Negative Prompt"@, None, "settings_negative"@));
    lemma_with_data_opt(s.negative_prompt is Some, ("Negative Prompt"@, None, "settings_negative"@), d);
    let o8 = opt_button(s.denoising_strength is Some, ("Denoising Strength: "@, s.denoising_strength, "settings_denoising"@));
    lemma_with_data_opt(s.denoising_strength is Some, ("Denoising Strength: "@, s.denoising_strength, "settings_denoising"@), d);
    let o9 = seq![("Cancel"@, None::<FloatBits>, "settings_back"@)];
    lemma_with_data_single(("Cancel"@, None::<FloatBits>, "settings_back"@), d);
    assert(settings_buttons(s) == o1 + o2 + o3 + o4 + o5 + o6 + o7 + o8 + o9);
    lemma_with_data_add(o1, o2, d);
    lemma_with_data_add(o1 + o2, o3, d);
    lemma_with_data_add(o1 + o2 + o3, o4, d);
    lemma_with_data_add(o1 + o2 + o3 + o4, o5, d);
    lemma_with_data_add(o1 + o2 + o3 + o4 + o5, o6, d);
    lemma_with_data_add(o1 + o2 + o3 + o4 + o5 + o6, o7, d);
    lemma_with_data_add(o1 + o2 + o3 + o4 + o5 + o6 + o7, o8, d);
    lemma_with_data_add(o1 + o2 + o3 + o4 + o5 + o6 + o7 + o8, o9, d);
    assert(buttons_with_data(settings_buttons(s), d) =~= match s.height {
            Some(v) => seq![("Height: "@ + decimal(v as nat), None, "settings_height"@)],
            None => Seq::<ButtonView>::empty(),
        });
}

/// The settings menu has a `settings_negative` button exactly when the negative prompt is
/// set, and then only one; its label names the setting.
pub proof fn law_settings_negative_button(s: Settings)
    ensures
        buttons_with_data(settings_buttons(s), "settings_negative"@) == match s.negative_prompt {
            Some(_) => seq![("Negative Prompt"@, None, "settings_negative"@)],
            None => Seq::<ButtonView>::empty(),
        },
{
    reveal_strlit("settings_steps");
    assert("settings_steps"@.len() == 14 && "settings_steps"@[9] == 's');
    reveal_strlit("settings_seed");
    assert("settings_seed"@.len() == 13 && "settings_seed"@[9] == 's');
    reveal_strlit("settings_count");
    assert("settings_count"@.len() == 14 && "settings_count"@[9] == 'c');
    reveal_strlit("settings_cfg");
    assert("settings_cfg"@.len() == 12 && "settings_cfg"@[9] == 'c');
    reveal_strlit("settings_width");
    assert("settings_width"@.len() == 14 && "settings_width"@[9] == 'w');
    reveal_strlit("settings_height");
    assert("settings_height"@.len() == 15 && "settings_height"@[9] == 'h');
    reveal_strlit("settings_negative");
    assert("settings_negative"@.len() == 17 && "settings_negative"@[9] == 'n');
    reveal_strlit("settings_denoising");
    assert("settings_denoising"@.len() == 18 && "settings_denoising"@[9] == 'd');
    reveal_strlit("settings_back");
    assert("settings_back"@.len() == 13 && "settings_back"@[9] == 'b');
    let d = "settings_negative"@;
    let o1 = opt_button(s.steps is Some, ("Steps: "@ + decimal(s.steps->0 as nat), None, "settings_steps"@));
    lemma_with_data_opt(s.steps is Some, ("Steps: "@ + decimal(s.steps->0 as nat), None, "settings_steps"@), d);
    let o2 = opt_button(s.seed is Some, ("Seed: "@ + signed_decimal(s.seed->0 as int), None, "settings_seed"@));
    lemma_with_data_opt(s.seed is Some, ("Seed: "@ + signed_decimal(s.seed->0 as int), None, "settings_seed"@), d);
    let o3 = opt_button(s.n_iter is Some, ("Batch Count: "@ + decimal(s.n_iter->0 as nat), None, "settings_count"@));
    lemma_with_data_opt(s.n_iter is Some, ("Batch Count: "@ + decimal(s.n_iter->0 as nat), None, "settings_count"@), d);
    let o4 = opt_button(s.cfg_scale is Some, ("CFG Scale: "@, s.cfg_scale, "settings_cfg"@));
    lemma_with_data_opt(s.cfg_scale is Some, ("CFG Scale: "@, s.cfg_scale, "settings_cfg"@), d);
    let o5 = opt_button(s.width is Some, ("Width: "@ + decimal(s.width->0 as nat), None, "settings_width"@));
    lemma_with_data_opt(s.width is Some, ("Width: "@ + decimal(s.width->0 as nat), None, "settings_width"@), d);
    let o6 = opt_button(s.height is Some, ("Height: "@ + decimal(s.height->0 as nat), None, "settings_height"@));
    lemma_with_data_opt(s.height is Some, ("Height: "@ + decimal(s.height->0 as nat), None, "settings_height"@), d);
    let o7 = opt_button(s.negative_prompt is Some, ("Negative Prompt"@, None, "settings_negative"@));
    lemma_with_data_opt(s.negative_prompt is Some, ("Negative Prompt"@, None, "settings_negative"@), d);
    let o8 = opt_button(s.denoising_strength is Some, ("Denoising Strength: "@, s.denoising_strength, "settings_denoising"@));
    lemma_with_data_opt(s.denoising_strength is Some, ("Denoising Strength: "@, s.denoising_strength, "settings_denoising"@), d);
    let o9 = seq![("Cancel"@, None::<FloatBits>, "settings_back"@)];
    lemma_with_data_single(("Cancel"@, None::<FloatBits>, "settings_back"@), d);
    assert(settings_buttons(s) == o1 + o2 + o3 + o4 + o5 + o6 + o7 + o8 + o9);
    lemma_with_data_add(o1, o2, d);
    lemma_with_data_add(o1 + o2, o3, d);
    lemma_with_data_add(o1 + o2 + o3, o4, d);
    lemma_with_data_add(o1 + o2 + o3 + o4, o5, d);
    lemma_with_data_add(o1 + o2 + o3 + o4 + o5, o6, d);
    lemma_with_data_add(o1 + o2 + o3 + o4 + o5 + o6, o7, d);
    lemma_with_data_add(o1 + o2 + o3 + o4 + o5 + o6 + o7, o8, d);
    lemma_with_data_add(o1 + o2 + o3 + o4 + o5 + o6 + o7 + o8, o9, d);
    assert(buttons_with_data(settings_buttons(s), d) =~= match s.negative_prompt {
            Some(_) => seq![("Negative Prompt"@, None, "settings_negative"@)],
            None => Seq::<ButtonView>::empty(),
        });
}

/// The settings menu has a `settings_denoising` button exactly when the denoising strength is
/// set, and then only one; its label is the setting's name, shown with the denoising strength.
pub proof fn law_settings_denoising_button(s: Settings)
    ensures
        buttons_with_data(settings_buttons(s), "settings_denoising"@) == match s.denoising_strength {
            Some(v) => seq![("Denoising Strength: "@, Some(v), "settings_denoising"@)],
            None => Seq::<ButtonView>::empty(),
        },
{
    reveal_strlit("settings_steps");
    assert("settings_steps"@.len() == 14 && "settings_steps"@[9] == 's');
    reveal_strlit("settings_seed");
    assert("settings_seed"@.len() == 13 && "settings_seed"@[9] == 's');
    reveal_strlit("settings_count");
    assert("settings_count"@.len() == 14 && "settings_count"@[9] == 'c');
    reveal_strlit("settings_cfg");
    assert("settings_cfg"@.len() == 12 && "settings_cfg"@[9] == 'c');
    reveal_strlit("settings_width");
    assert("settings_width"@.len() == 14 && "settings_width"@[9] == 'w');
    reveal_strlit("settings_height");
    assert("settings_height"@.len() == 15 && "settings_height"@[9] == 'h');
    reveal_strlit("settings_negative");
    assert("settings_negative"@.len() == 17 && "settings_negative"@[9] == 'n');
    reveal_strlit("settings_denoising");
    assert("settings_denoising"@.len() == 18 && "settings_denoising"@[9] == 'd');
    reveal_strlit("settings_back");
    assert("settings_back"@.len() == 13 && "settings_back"@[9] == 'b');
    let d = "settings_denoising"@;
    let o1 = opt_button(s.steps is Some, ("Steps: "@ + decimal(s.steps->0 as nat), None, "settings_steps"@));
    lemma_with_data_opt(s.steps is Some, ("Steps: "@ + decimal(s.steps->0 as nat), None, "settings_steps"@), d);
    let o2 = opt_button(s.seed is Some, ("Seed: "@ + signed_decimal(s.seed->0 as int), None, "settings_seed"@));
    lemma_with_data_opt(s.seed is Some, ("Seed: "@ + signed_decimal(s.seed->0 as int), None, "settings_seed"@), d);
    let o3 = opt_button(s.n_iter is Some, ("Batch Count: "@ + decimal(s.n_iter->0 as nat), None, "settings_count"@));
    lemma_with_data_opt(s.n_iter is Some, ("Batch Count: "@ + decimal(s.n_iter->0 as nat), None, "settings_count"@), d);
    let o4 = opt_button(s.cfg_scale is Some, ("CFG Scale: "@, s.cfg_scale, "settings_cfg"@));
    lemma_with_data_opt(s.cfg_scale is Some, ("CFG Scale: "@, s.cfg_scale, "settings_cfg"@), d);
    let o5 = opt_button(s.width is Some, ("Width: "@ + decimal(s.width->0 as nat), None, "settings_width"@));
    lemma_with_data_opt(s.width is Some, ("Width: "@ + decimal(s.width->0 as nat), None, "settings_width"@), d);
    let o6 = opt_button(s.height is Some, ("Height: "@ + decimal(s.height->0 as nat), None, "settings_height"@));
    lemma_with_data_opt(s.height is Some, ("Height: "@ + decimal(s.height->0 as nat), None, "settings_height"@), d);
    let o7 = opt_button(s.negative_prompt is Some, ("Negative Prompt"@, None, "settings_negative"@));
    lemma_with_data_opt(s.negative_prompt is Some, ("Negative Prompt"@, None, "settings_negative"@), d);
    let o8 = opt_button(s.denoising_strength is Some, ("Denoising Strength: "@, s.denoising_strength, "settings_denoising"@));
    lemma_with_data_opt(s.denoising_strength is Some, ("Denoising Strength: "@, s.denoising_strength, "settings_denoising"@), d);
    let o9 = seq![("Cancel"@, None::<FloatBits>, "settings_back"@)];
    lemma_with_data_single(("Cancel"@, None::<FloatBits>, "settings_back"@), d);
    assert(settings_buttons(s) == o1 + o2 + o3 + o4 + o5 + o6 + o7 + o8 + o9);
    lemma_with_data_add(o1, o2, d);
    lemma_with_data_add(o1 + o2, o3, d);
    lemma_with_data_add(o1 + o2 + o3, o4, d);
    lemma_with_data_add(o1 + o2 + o3 + o4, o5, d);
    lemma_with_data_add(o1 + o2 + o3 + o4 + o5, o6, d);
    lemma_with_data_add(o1 + o2 + o3 + o4 + o5 + o6, o7, d);
    lemma_with_data_add(o1 + o2 + o3 + o4 + o5 + o6 + o7, o8, d);
    lemma_with_data_add(o1 + o2 + o3 + o4 + o5 + o6 + o7 + o8, o9, d);
    assert(buttons_with_data(settings_buttons(s), d) =~= match s.denoising_strength {
            Some(v) => seq![("Denoising Strength: "@, Some(v), "settings_denoising"@)],
            None => Seq::<ButtonView>::empty(),
        });
}

/// The settings menu always ends with one `settings_back` button, labelled
/// "Cancel".
pub proof fn law_settings_back_button(s: Settings)
    ensures
        buttons_with_data(settings_buttons(s), "settings_back"@) == seq![("Cancel"@, None::<FloatBits>, "settings_back"@)],
{
    reveal_strlit("settings_steps");
    assert("settings_steps"@.len() == 14 && "settings_steps"@[9] == 's');
    reveal_strlit("settings_seed");
    assert("settings_seed"@.len() == 13 && "settings_seed"@[9] == 's');
    reveal_strlit("settings_count");
    assert("settings_count"@.len() == 14 && "settings_count"@[9] == 'c');
    reveal_strlit("settings_cfg");
    assert("settings_cfg"@.len() == 12 && "settings_cfg"@[9] == 'c');
    reveal_strlit("settings_width");
    assert("settings_width"@.len() == 14 && "settings_width"@[9] == 'w');
    reveal_strlit("settings_height");
    assert("settings_height"@.len() == 15 && "settings_height"@[9] == 'h');
    reveal_strlit("settings_negative");
    assert("settings_negative"@.len() == 17 && "settings_negative"@[9] == 'n');
    reveal_strlit("settings_denoising");
    assert("settings_denoising"@.len() == 18 && "settings_denoising"@[9] == 'd');
    reveal_strlit("settings_back");
    assert("settings_back"@.len() == 13 && "settings_back"@[9] == 'b');
    let d = "settings_back"@;
    let o1 = opt_button(s.steps is Some, ("Steps: "@ + decimal(s.steps->0 as nat), None, "settings_steps"@));
    lemma_with_data_opt(s.steps is Some, ("Steps: "@ + decimal(s.steps->0 as nat), None, "settings_steps"@), d);
    let o2 = opt_button(s.seed is Some, ("Seed: "@ + signed_decimal(s.seed->0 as int), None, "settings_seed"@));
    lemma_with_data_opt(s.seed is Some, ("Seed: "@ + signed_decimal(s.seed->0 as int), None, "settings_seed"@), d);
    let o3 = opt_button(s.n_iter is Some, ("Batch Count: "@ + decimal(s.n_iter->0 as nat), None, "settings_count"@));
    lemma_with_data_opt(s.n_iter is Some, ("Batch Count: "@ + decimal(s.n_iter->0 as nat), None, "settings_count"@), d);
    let o4 = opt_button(s.cfg_scale is Some, ("CFG Scale: "@, s.cfg_scale, "settings_cfg"@));
    lemma_with_data_opt(s.cfg_scale is Some, ("CFG Scale: "@, s.cfg_scale, "settings_cfg"@), d);
    let o5 = opt_button(s.width is Some, ("Width: "@ + decimal(s.width->0 as nat), None, "settings_width"@));
    lemma_with_data_opt(s.width is Some, ("Width: "@ + decimal(s.width->0 as nat), None, "settings_width"@), d);
    let o6 = opt_button(s.height is Some, ("Height: "@ + decimal(s.height->0 as nat), None, "settings_height"@));
    lemma_with_data_opt(s.height is Some, ("Height: "@ + decimal(s.height->0 as nat), None, "settings_height"@), d);
    let o7 = opt_button(s.negative_prompt is Some, ("Negative Prompt"@, None, "settings_negative"@));
    lemma_with_data_opt(s.negative_prompt is Some, ("Negative Prompt"@, None, "settings_negative"@), d);
    let o8 = opt_button(s.denoising_strength is Some, ("Denoising Strength: "@, s.denoising_strength, "settings_denoising"@));
    lemma_with_data_opt(s.denoising_strength is Some, ("Denoising Strength: "@, s.denoising_strength, "settings_denoising"@), d);
    let o9 = seq![("Cancel"@, None::<FloatBits>, "settings_back"@)];
    lemma_with_data_single(("Cancel"@, None::<FloatBits>, "settings_back"@), d);
    assert(settings_buttons(s) == o1 + o2 + o3 + o4 + o5 + o6 + o7 + o8 + o9);
    lemma_with_data_add(o1, o2, d);
    lemma_with_data_add(o1 + o2, o3, d);
    lemma_with_data_add(o1 + o2 + o3, o4, d);
    lemma_with_data_add(o1 + o2 + o3 + o4, o5, d);
    lemma_with_data_add(o1 + o2 + o3 + o4 + o5, o6, d);
    lemma_with_data_add(o1 + o2 + o3 + o4 + o5 + o6, o7, d);
    lemma_with_data_add(o1 + o2 + o3 + o4 + o5 + o6 + o7, o8, d);
    lemma_with_data_add(o1 + o2 + o3 + o4 + o5 + o6 + o7 + o8, o9, d);
    assert(buttons_with_data(settings_buttons(s), d) =~= seq![("Cancel"@, None::<FloatBits>, "settings_back"@)]);
}

} // verus!
