use vstd::prelude::*;

use crate::bot::settings::ParentKind;
use crate::bot::state::{BotState, State};
use crate::numbers::{parse_i64, parsed_i64, signed_decimal, push_signed_decimal};
use crate::params::gen_params::GenParams;
use crate::text::{has_prefix, ids, lemma_ids_push, push_char, starts_with};

verus! {

/// The parts of `s` between slashes, in order (one part when there is no
/// slash).
pub open spec fn split_slash(s: Seq<char>) -> Seq<Seq<char>>
    decreases s.len(),
{
    if s.len() == 0 {
        seq![seq![]]
    } else {
        let p = split_slash(s.drop_last());
        if s.last() == '/' {
            p.push(seq![])
        } else {
            p.update(p.len() - 1, p.last().push(s.last()))
        }
    }
}

/// The first of the parts `parts` from position `k` on that reads as an
/// `i64`.
pub open spec fn first_seed(parts: Seq<Seq<char>>, k: int) -> Option<i64>
    decreases parts.len() - k,
{
    if k < 0 || k >= parts.len() {
        None
    } else {
        match parsed_i64(parts[k]) {
            Some(v) => Some(v),
            None => first_seed(parts, k + 1),
        }
    }
}

/// The seed a reuse button's data asks for: data starting with `reuse`,
/// and the first part after a slash that reads as an `i64`.
pub open spec fn reuse_seed_of(data: Seq<char>) -> Option<i64> {
    if has_prefix(data, "reuse"@) {
        first_seed(split_slash(data), 1)
    } else {
        None
    }
}

proof fn lemma_split_slash_len(s: Seq<char>)
    ensures
        split_slash(s).len() >= 1,
    decreases s.len(),
{
    if s.len() > 0 {
        lemma_split_slash_len(s.drop_last());
    }
}

/// Splits `s` at its slashes (see `split_slash`).
fn split_at_slashes(s: &str) -> (r: Vec<String>)
    ensures
        ids(r@) == split_slash(s@),
{
    let n = s.unicode_len();
    let mut parts: Vec<String> = Vec::new();
    let mut current = String::new();
    let mut i: usize = 0;
    while i < n
        invariant
            n == s@.len(),
            i <= n,
            split_slash(s@.take(i as int)) == ids(parts@).push(current@),
        decreases n - i,
    {
        let c = s.get_char(i);
        let ghost pre = s@.take(i as int);
        assert(s@.take(i + 1).drop_last() =~= pre);
        assert(s@.take(i + 1).last() == c);
        proof {
            lemma_split_slash_len(pre);
        }
        if c == '/' {
            let ghost before = parts@;
            let done = current;
            parts.push(done);
            proof {
                lemma_ids_push(before, done);
            }
            current = String::new();
            assert(split_slash(s@.take(i + 1)) =~= ids(parts@).push(current@));
        } else {
            let ghost old_current = current@;
            push_char(&mut current, c);
            assert(split_slash(s@.take(i + 1)) =~= ids(parts@).push(current@));
        }
        i += 1;
    }
    assert(s@.take(n as int) =~= s@);
    let ghost before = parts@;
    let last = current;
    parts.push(last);
    proof {
        lemma_ids_push(before, last);
    }
    parts
}

/// The seed a reuse button's data asks for (see `reuse_seed_of`).
pub fn reuse_seed(data: &str) -> (r: Option<i64>)
    ensures
        r == reuse_seed_of(data@),
{
    if !starts_with(data, "reuse") {
        return None;
    }
    let parts = split_at_slashes(data);
    let ghost ps = ids(parts@);
    let mut k: usize = 1;
    while k < parts.len()
        invariant
            ps == ids(parts@),
            ps == split_slash(data@),
            has_prefix(data@, "reuse"@),
            1 <= k,
            first_seed(ps, 1) == first_seed(ps, k as int),
        decreases parts.len() - k,
    {
        assert(ps[k as int] == parts@[k as int]@);
        match parse_i64(parts[k].as_str()) {
            Some(v) => {
                assert(parsed_i64(ps[k as int]) == Some(v));
                assert(first_seed(ps, k as int) == Some(v));
                return Some(v);
            },
            None => {
                assert(first_seed(ps, k as int) == first_seed(ps, k + 1));
            },
        }
        k += 1;
    }
    None
}

/// What pressing a reuse button does.
#[derive(Debug, PartialEq)]
pub struct ReuseOutcome {
    /// The new state of the chat.
    pub state: State,
    /// Whether the seed was randomized (-1) rather than set.
    pub randomized: bool,
}

/// The chat state after asking to reuse `seed` for the generation that
/// produced a message: the seed is set in the image-to-image parameters
/// when the message answers a photo, in the text-to-image parameters when
/// it answers text, and the chat goes back to generating; `None` for
/// anything else.
pub fn reuse(parent: ParentKind, txt2img: GenParams, img2img: GenParams, seed: i64) -> (r: Option<ReuseOutcome>)
    ensures
        parent == ParentKind::Other <==> r is None,
        r matches Some(o) ==> o.randomized == (seed == -1),
        parent == ParentKind::Photo ==> (r matches Some(o) && o.state matches State::Ready {
            bot_state: BotState::Generate,
            txt2img: t,
            img2img: i,
        } && t == txt2img && img2img.with_seed(i, seed)),
        parent == ParentKind::Text ==> (r matches Some(o) && o.state matches State::Ready {
            bot_state: BotState::Generate,
            txt2img: t,
            img2img: i,
        } && i == img2img && txt2img.with_seed(t, seed)),
{
    let mut txt2img = txt2img;
    let mut img2img = img2img;
    match parent {
        ParentKind::Photo => {
            img2img.set_seed(seed);
        },
        ParentKind::Text => {
            txt2img.set_seed(seed);
        },
        ParentKind::Other => {
            return None;
        },
    }
    Some(ReuseOutcome {
        state: State::Ready { bot_state: BotState::Generate, txt2img, img2img },
        randomized: seed == -1,
    })
}

/// The answer shown after setting a seed to reuse.
pub fn reuse_answer(seed: i64) -> (r: String)
    ensures
        seed == -1 ==> r@ == "Seed randomized."@,
        seed != -1 ==> r@ == "Seed set to "@ + signed_decimal(seed as int) + "."@,
{
    if seed == -1 {
        "Seed randomized.".to_owned()
    } else {
        let mut t = "Seed set to ".to_owned();
        push_signed_decimal(&mut t, seed);
        t.append(".");
        t
    }
}

/// What pressing the rerun button does.
#[derive(Debug, Clone, Copy, PartialEq, Eq, Structural)]
pub enum RerunAction {
    /// Run image-to-image generation again on the photo.
    Image,
    /// Run text-to-image generation again on the prompt.
    Prompt,
    /// Nothing can be rerun.
    Unavailable,
}

/// What rerunning a message does: the generation that answered a photo or
/// a prompt again; nothing for anything else.
pub fn rerun_action(parent: ParentKind) -> (r: RerunAction)
    ensures
        parent == ParentKind::Photo ==> r == RerunAction::Image,
        parent == ParentKind::Text ==> r == RerunAction::Prompt,
        parent == ParentKind::Other ==> r == RerunAction::Unavailable,
{
    match parent {
        ParentKind::Photo => RerunAction::Image,
        ParentKind::Text => RerunAction::Prompt,
        ParentKind::Other => RerunAction::Unavailable,
    }
}

/// Which help text a chat is shown.
#[derive(Debug, Clone, Copy, PartialEq, Eq, Structural)]
pub enum HelpText {
    /// The descriptions of all commands.
    Full,
    /// The descriptions of the commands anyone may use, with the bot's
    /// name, as groups need them.
    Group,
    /// The descriptions of the commands anyone may use.
    Basic,
}

/// The help text for a chat: all commands where the chat or its user may
/// use the bot, else the public ones, with the bot's name in groups.
pub fn help_text(allowed: bool, is_group: bool) -> (r: HelpText)
    ensures
        allowed ==> r == HelpText::Full,
        !allowed && is_group ==> r == HelpText::Group,
        !allowed && !is_group ==> r == HelpText::Basic,
{
    if allowed {
        HelpText::Full
    } else if is_group {
        HelpText::Group
    } else {
        HelpText::Basic
    }
}

/// The photo size to use among sizes of heights `heights`: the tallest,
/// the last of them on a tie; `None` when there is none.
pub fn largest_photo(heights: &Vec<u32>) -> (r: Option<usize>)
    ensures
        heights@.len() == 0 <==> r is None,
        r matches Some(k) ==> k < heights@.len()
            && (forall|j: int| 0 <= j < heights@.len() ==> heights@[j] <= heights@[k as int])
            && (forall|j: int| k < j < heights@.len() ==> heights@[j] < heights@[k as int]),
{
    if heights.len() == 0 {
        return None;
    }
    let mut best: usize = 0;
    let mut i: usize = 1;
    while i < heights.len()
        invariant
            1 <= i <= heights.len(),
            best < i,
            forall|j: int| 0 <= j < i ==> heights@[j] <= heights@[best as int],
            forall|j: int| best < j < i ==> heights@[j] < heights@[best as int],
        decreases heights.len() - i,
    {
        if !(heights[best] > heights[i]) {
            best = i;
        }
        i += 1;
    }
    Some(best)
}

} // verus!
