use vstd::prelude::*;

use crate::bot::settings::{Button, ButtonLabel, ButtonView};
use crate::float_bits::FloatBits;
use crate::numbers::{decimal, push_decimal, push_signed_decimal, signed_decimal};
use crate::params::image_params::ImageParams;
use crate::text::{blank, escape_markdown, is_blank, markdown_escaped};

verus! {

/// The buttons under a generated image: rerun, reuse the seed (or draw a
/// new one when the seed is -1), and settings.
pub open spec fn reply_buttons(seed: i64) -> Seq<ButtonView> {
    seq![
        ("🔄 Rerun"@, None, "rerun"@),
        if seed == -1 {
            ("🎲 Seed"@, None, "reuse/-1"@)
        } else {
            ("♻️ Seed"@, None, "reuse/"@ + signed_decimal(seed as int))
        },
        ("⚙️ Settings"@, None, "settings"@),
    ]
}

fn text_button(label: &str, data: String) -> (b: Button)
    ensures
        b@ == (label@, None::<FloatBits>, data@),
{
    Button { label: ButtonLabel::Text(label.to_owned()), data }
}

/// The keyboard under a generated image (see `reply_buttons`), in one row.
pub fn keyboard(seed: i64) -> (r: Vec<Vec<Button>>)
    ensures
        r@.len() == 1,
        r@[0]@.map_values(|b: Button| b@) == reply_buttons(seed),
{
    let seed_button = if seed == -1 {
        text_button("🎲 Seed", "reuse/-1".to_owned())
    } else {
        let mut data = "reuse/".to_owned();
        push_signed_decimal(&mut data, seed);
        text_button("♻️ Seed", data)
    };
    let mut row: Vec<Button> = Vec::new();
    row.push(text_button("🔄 Rerun", "rerun".to_owned()));
    row.push(seed_button);
    row.push(text_button("⚙️ Settings", "settings".to_owned()));
    assert(row@.map_values(|b: Button| b@) =~= reply_buttons(seed));
    let mut r: Vec<Vec<Button>> = Vec::new();
    r.push(row);
    r
}

/// Generated images to send: one photo, or an album of several.
#[derive(Debug, PartialEq)]
pub enum Photo {
    /// A single photo.
    Single(Vec<u8>),
    /// An album of photos.
    Album(Vec<Vec<u8>>),
}

impl Photo {
    /// A single photo.
    pub fn single(photo: Vec<u8>) -> (r: Self)
        ensures
            r == Photo::Single(photo),
    {
        Photo::Single(photo)
    }

    /// The photos to send for `photos`: one photo when there is exactly one,
    /// else an album of them all.
    pub fn album(photos: Vec<Vec<u8>>) -> (r: Self)
        ensures
            photos@.len() == 1 ==> (r matches Photo::Single(p) && p@ == photos@[0]@),
            photos@.len() != 1 ==> (r matches Photo::Album(a) && a@ == photos@),
    {
        if photos.len() == 1 {
            let mut photos = photos;
            let p = photos.pop();
            match p {
                Some(p) => Photo::Single(p),
                None => Photo::Album(photos),
            }
        } else {
            Photo::Album(photos)
        }
    }
}

/// A reply to a generation request.
#[derive(Debug, PartialEq)]
pub struct Reply {
    /// The caption.
    pub caption: MessageText,
    /// The images.
    pub images: Photo,
    /// The id of the message replied to.
    pub source: i32,
    /// The seed the reuse button offers (-1 for a new random one).
    pub seed: i64,
}

impl Reply {
    /// A reply with `caption` and `images` to message `source`.
    pub fn new(caption: MessageText, images: Vec<Vec<u8>>, seed: i64, source: i32) -> (r: Self)
        ensures
            r.caption == caption,
            r.source == source,
            r.seed == seed,
            images@.len() == 1 ==> (r.images matches Photo::Single(p) && p@ == images@[0]@),
            images@.len() != 1 ==> (r.images matches Photo::Album(a) && a@ == images@),
    {
        Reply { caption, images: Photo::album(images), source, seed }
    }
}

/// The seed a reply offers to reuse: -1 (a new random one) when the image
/// was made with the seed the parameters asked for, else the seed used, or
/// -1 when it is unknown.
pub open spec fn offered_seed(used: Option<i64>, asked: Option<i64>) -> i64 {
    if used == asked {
        -1i64
    } else {
        match used {
            Some(s) => s,
            None => -1i64,
        }
    }
}

/// The seed a reply offers to reuse (see `offered_seed`).
pub fn reply_seed(used: Option<i64>, asked: Option<i64>) -> (r: i64)
    ensures
        r == offered_seed(used, asked),
{
    if used == asked {
        -1
    } else {
        match used {
            Some(s) => s,
            None => -1,
        }
    }
}

/// A piece of a caption: text, or a floating-point value shown as the
/// program displays such values.
#[derive(Debug, PartialEq)]
pub enum TextPart {
    /// Text.
    Text(String),
    /// A floating-point value.
    Number(FloatBits),
}

/// The abstract value of a caption piece: its text, or the value it shows.
pub type PartView = (Seq<char>, Option<FloatBits>);

impl View for TextPart {
    type V = PartView;

    open spec fn view(&self) -> PartView {
        match self {
            TextPart::Text(t) => (t@, None),
            TextPart::Number(v) => (seq![], Some(*v)),
        }
    }
}

/// The view of a list of caption pieces.
pub open spec fn parts_view(parts: Seq<TextPart>) -> Seq<PartView> {
    parts.map_values(|p: TextPart| p@)
}

/// The caption of a generated image, in Telegram's MarkdownV2: the text of
/// its pieces one after the other.
#[derive(Debug, PartialEq)]
pub struct MessageText {
    /// The pieces of the caption.
    pub parts: Vec<TextPart>,
}

/// Lines of pieces joined with line breaks.
pub open spec fn joined(lines: Seq<Seq<PartView>>) -> Seq<PartView>
    decreases lines.len(),
{
    if lines.len() == 0 {
        seq![]
    } else if lines.len() == 1 {
        lines[0]
    } else {
        joined(lines.drop_last()) + seq![("\n"@, None::<FloatBits>)] + lines.last()
    }
}

/// A line when it is there.
pub open spec fn opt_line(present: bool, line: Seq<PartView>) -> Seq<Seq<PartView>> {
    if present {
        seq![line]
    } else {
        seq![]
    }
}

/// A line of text.
pub open spec fn text_line(t: Seq<char>) -> Seq<PartView> {
    seq![(t, None::<FloatBits>)]
}

/// A line showing a floating-point value between a prefix and a suffix.
pub open spec fn number_line(prefix: Seq<char>, v: FloatBits, suffix: Seq<char>) -> Seq<PartView> {
    seq![(prefix, None::<FloatBits>), (seq![], Some(v)), (suffix, None::<FloatBits>)]
}

/// The lines describing the parameters of an image: the negative prompt
/// (when not blank, escaped), steps, sampler, CFG scale, seed, size (when
/// both width and height are known), model and denoising strength, each
/// when known.
pub open spec fn info_lines(p: ImageParams) -> Seq<Seq<PartView>> {
    let neg = p.spec_negative_prompt();
    opt_line(neg is Some && !is_blank(neg->0@), text_line("Negative prompt: `"@ + markdown_escaped(neg->0@) + "`"@))
        + opt_line(p.spec_steps() is Some, text_line("Steps: `"@ + decimal(p.spec_steps()->0 as nat) + "`"@))
        + opt_line(p.spec_sampler() is Some, text_line("Sampler: `"@ + p.spec_sampler()->0@ + "`"@))
        + opt_line(p.spec_cfg() is Some, number_line("CFG scale: `"@, p.spec_cfg()->0, "`"@))
        + opt_line(p.spec_seed() is Some, text_line("Seed: `"@ + signed_decimal(p.spec_seed()->0 as int) + "`"@))
        + opt_line(
        p.spec_width() is Some && p.spec_height() is Some,
        text_line("Size: `"@ + decimal(p.spec_width()->0 as nat) + "×"@ + decimal(p.spec_height()->0 as nat) + "`"@),
    ) + opt_line(p.spec_model() is Some, text_line("Model: `"@ + p.spec_model()->0@ + "`"@))
        + opt_line(p.spec_denoising() is Some, number_line("Denoising strength: `"@, p.spec_denoising()->0, "`"@))
}

/// The caption for an image made from `prompt` with parameters `p`: the
/// escaped prompt as code, a blank line, then the parameter lines.
pub open spec fn caption(prompt: Seq<char>, p: ImageParams) -> Seq<PartView> {
    text_line("`"@ + markdown_escaped(prompt) + "`\n\n"@) + joined(info_lines(p))
}

/// Appends a line to a caption whose lines so far are `lines`.
fn add_line(c: &mut Vec<TextPart>, started: bool, line: Vec<TextPart>, Ghost(head): Ghost<Seq<PartView>>, Ghost(lines): Ghost<Seq<Seq<PartView>>>)
    requires
        started == (lines.len() > 0),
        parts_view(old(c)@) == head + joined(lines),
    ensures
        parts_view(final(c)@) == head + joined(lines.push(parts_view(line@))),
{
    let ghost before = c@;
    if started {
        c.push(TextPart::Text("\n".to_owned()));
    }
    let ghost mid = c@;
    let ghost lv = parts_view(line@);
    assert(parts_view(mid) =~= head + joined(lines) + (if started { seq![("\n"@, None::<FloatBits>)] } else { seq![] }));
    let mut line = line;
    c.append(&mut line);
    assert(parts_view(c@) =~= parts_view(mid) + lv);
    assert(lines.push(lv).drop_last() =~= lines);
    assert(lines.push(lv).last() == lv);
    if !started {
        assert(joined(lines.push(lv)) == lv);
    }
    assert(parts_view(c@) =~= head + joined(lines.push(lv)));
}


/// Appends a line, when there is one, to a caption whose lines so far are
/// `lines`.
fn add_opt_line(c: &mut Vec<TextPart>, started: &mut bool, line: Option<Vec<TextPart>>, Ghost(head): Ghost<Seq<PartView>>, Ghost(lines): Ghost<Seq<Seq<PartView>>>)
    requires
        *old(started) == (lines.len() > 0),
        parts_view(old(c)@) == head + joined(lines),
    ensures
        parts_view(final(c)@) == head + joined(lines + opt_line(line is Some, parts_view(line->0@))),
        *final(started) == ((lines + opt_line(line is Some, parts_view(line->0@))).len() > 0),
{
    match line {
        Some(l) => {
            let ghost lv = parts_view(l@);
            add_line(c, *started, l, Ghost(head), Ghost(lines));
            *started = true;
            assert(lines + opt_line(true, lv) =~= lines.push(lv));
        },
        None => {
            assert(lines + opt_line(false, seq![]) =~= lines);
        },
    }
}

fn one_text(t: String) -> (r: Vec<TextPart>)
    ensures
        parts_view(r@) == text_line(t@),
{
    let mut r: Vec<TextPart> = Vec::new();
    r.push(TextPart::Text(t));
    assert(parts_view(r@) =~= text_line(t@));
    r
}

fn number_text(prefix: &str, v: FloatBits, suffix: &str) -> (r: Vec<TextPart>)
    ensures
        parts_view(r@) == number_line(prefix@, v, suffix@),
{
    let mut r: Vec<TextPart> = Vec::new();
    r.push(TextPart::Text(prefix.to_owned()));
    r.push(TextPart::Number(v));
    r.push(TextPart::Text(suffix.to_owned()));
    assert(parts_view(r@) =~= number_line(prefix@, v, suffix@));
    r
}

/// `prefix`, then `middle`, then a backtick.
fn quoted(prefix: &str, middle: &str) -> (r: String)
    ensures
        r@ == prefix@ + middle@ + "`"@,
{
    let mut t = prefix.to_owned();
    t.append(middle);
    t.append("`");
    t
}

/// Why a caption could not be made.
#[derive(Debug, Clone, Copy, PartialEq, Eq, Structural)]
pub enum CaptionError {
    /// The image parameters hold no prompt.
    NoPrompt,
}

impl MessageText {
    /// The caption for an image made from `prompt` with parameters `info`
    /// (see `caption`).
    pub fn new_with_image_params(prompt: &str, info: &ImageParams) -> (r: Self)
        ensures
            parts_view(r.parts@) == caption(prompt@, *info),
    {
        let mut first = "`".to_owned();
        let escaped = escape_markdown(prompt);
        first.append(escaped.as_str());
        first.append("`\n\n");
        let mut c: Vec<TextPart> = Vec::new();
        c.push(TextPart::Text(first));
        let ghost head = parts_view(c@);
        assert(head =~= text_line("`"@ + markdown_escaped(prompt@) + "`\n\n"@));
        let mut started = false;
        let ghost mut lines: Seq<Seq<PartView>> = seq![];
        assert(parts_view(c@) =~= head + joined(lines));

        let neg = match info.negative_prompt() {
            Some(n) => if !blank(n.as_str()) {
                let e = escape_markdown(n.as_str());
                Some(one_text(quoted("Negative prompt: `", e.as_str())))
            } else {
                None
            },
            None => None,
        };
        add_opt_line(&mut c, &mut started, neg, Ghost(head), Ghost(lines));
        proof {
            let n = info.spec_negative_prompt();
            lines = lines + opt_line(n is Some && !is_blank(n->0@), text_line("Negative prompt: `"@ + markdown_escaped(n->0@) + "`"@));
        }

        let steps = match info.steps() {
            Some(v) => {
                let mut t = "Steps: `".to_owned();
                push_decimal(&mut t, v as u64);
                t.append("`");
                Some(one_text(t))
            },
            None => None,
        };
        add_opt_line(&mut c, &mut started, steps, Ghost(head), Ghost(lines));
        proof {
            lines = lines + opt_line(info.spec_steps() is Some, text_line("Steps: `"@ + decimal(info.spec_steps()->0 as nat) + "`"@));
        }

        let sampler = match info.sampler() {
            Some(v) => Some(one_text(quoted("Sampler: `", v.as_str()))),
            None => None,
        };
        add_opt_line(&mut c, &mut started, sampler, Ghost(head), Ghost(lines));
        proof {
            lines = lines + opt_line(info.spec_sampler() is Some, text_line("Sampler: `"@ + info.spec_sampler()->0@ + "`"@));
        }

        let cfg = match info.cfg() {
            Some(v) => Some(number_text("CFG scale: `", v, "`")),
            None => None,
        };
        add_opt_line(&mut c, &mut started, cfg, Ghost(head), Ghost(lines));
        proof {
            lines = lines + opt_line(info.spec_cfg() is Some, number_line("CFG scale: `"@, info.spec_cfg()->0, "`"@));
        }

        let seed = match info.seed() {
            Some(v) => {
                let mut t = "Seed: `".to_owned();
                push_signed_decimal(&mut t, v);
                t.append("`");
                Some(one_text(t))
            },
            None => None,
        };
        add_opt_line(&mut c, &mut started, seed, Ghost(head), Ghost(lines));
        proof {
            lines = lines + opt_line(info.spec_seed() is Some, text_line("Seed: `"@ + signed_decimal(info.spec_seed()->0 as int) + "`"@));
        }

        let size = match (info.width(), info.height()) {
            (Some(w), Some(h)) => {
                let mut t = "Size: `".to_owned();
                push_decimal(&mut t, w as u64);
                t.append("×");
                push_decimal(&mut t, h as u64);
                t.append("`");
                Some(one_text(t))
            },
            _ => None,
        };
        add_opt_line(&mut c, &mut started, size, Ghost(head), Ghost(lines));
        proof {
            lines = lines + opt_line(
                info.spec_width() is Some && info.spec_height() is Some,
                text_line("Size: `"@ + decimal(info.spec_width()->0 as nat) + "×"@ + decimal(info.spec_height()->0 as nat) + "`"@),
            );
        }

        let model = match info.model() {
            Some(v) => Some(one_text(quoted("Model: `", v.as_str()))),
            None => None,
        };
        add_opt_line(&mut c, &mut started, model, Ghost(head), Ghost(lines));
        proof {
            lines = lines + opt_line(info.spec_model() is Some, text_line("Model: `"@ + info.spec_model()->0@ + "`"@));
        }

        let denoising = match info.denoising() {
            Some(v) => Some(number_text("Denoising strength: `", v, "`")),
            None => None,
        };
        add_opt_line(&mut c, &mut started, denoising, Ghost(head), Ghost(lines));
        proof {
            lines = lines + opt_line(info.spec_denoising() is Some, number_line("Denoising strength: `"@, info.spec_denoising()->0, "`"@));
        }
        assert(lines =~= info_lines(*info));
        MessageText { parts: c }
    }

    /// The caption for an image with parameters `params`; an error when they
    /// hold no prompt.
    pub fn from_params(params: &ImageParams) -> (r: Result<Self, CaptionError>)
        ensures
            params.spec_prompt() is None ==> r == Err::<Self, CaptionError>(CaptionError::NoPrompt),
            params.spec_prompt() matches Some(p) ==> (r matches Ok(m) && parts_view(m.parts@) == caption(p@, *params)),
    {
        match params.prompt() {
            Some(p) => Ok(Self::new_with_image_params(p.as_str(), params)),
            None => Err(CaptionError::NoPrompt),
        }
    }
}

} // verus!
