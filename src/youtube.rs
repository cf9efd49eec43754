//! Comments of the YouTube toxicity corpus, the categories they are filed
//! under, and the truthy and falsey words its label columns use.

use vstd::prelude::*;

use crate::dataset::{select, selects, Category};

verus! {

/// One labelled comment of a video.
#[derive(Debug)]
pub struct Comment {
    pub comment_id: String,
    pub video_id: String,
    pub text: String,
    pub toxic: bool,
    pub abusive: bool,
    pub threat: bool,
    pub provocative: bool,
    pub obscene: bool,
    pub hate_speech: bool,
    pub racist: bool,
    pub nationalist: bool,
    pub sexist: bool,
    pub homophobic: bool,
    pub religious_hate: bool,
    pub radicalism: bool,
}

/// The categories in the order the corpus is written out; this corpus has
/// no insult label.
pub open spec fn category_order() -> Seq<Category> {
    seq![
        Category::Toxic,
        Category::SevereToxic,
        Category::Obscene,
        Category::Threat,
        Category::IdentityHate,
        Category::Neutral,
    ]
}

/// Whether a comment is filed under a category.
pub open spec fn files_under(c: Comment, cat: Category) -> bool {
    match cat {
        Category::Toxic => c.toxic || c.religious_hate || c.provocative || c.abusive || c.nationalist,
        Category::SevereToxic => c.hate_speech || c.radicalism || c.racist,
        Category::Obscene => c.obscene,
        Category::Threat => c.threat,
        Category::Insult => false,
        Category::IdentityHate => c.homophobic || c.sexist || c.racist,
        Category::Neutral => !c.toxic && !c.abusive && !c.threat && !c.provocative && !c.obscene
            && !c.hate_speech && !c.racist && !c.nationalist && !c.sexist && !c.homophobic
            && !c.religious_hate && !c.radicalism,
    }
}

/// For each comment, whether it is filed under `cat`.
pub open spec fn filed(comments: Seq<Comment>, cat: Category) -> Seq<bool> {
    Seq::new(comments.len(), |k: int| files_under(comments[k], cat))
}

/// The categories of this corpus, in the order they are written out.
pub fn categories() -> (r: Vec<Category>)
    ensures
        r@ == category_order(),
{
    let r = vec![
        Category::Toxic,
        Category::SevereToxic,
        Category::Obscene,
        Category::Threat,
        Category::IdentityHate,
        Category::Neutral,
    ];
    assert(r@ =~= category_order());
    r
}

/// Whether `c` is filed under `cat`.
pub fn is_in(c: &Comment, cat: Category) -> (r: bool)
    ensures
        r == files_under(*c, cat),
{
    match cat {
        Category::Toxic => c.toxic || c.religious_hate || c.provocative || c.abusive || c.nationalist,
        Category::SevereToxic => c.hate_speech || c.radicalism || c.racist,
        Category::Obscene => c.obscene,
        Category::Threat => c.threat,
        Category::Insult => false,
        Category::IdentityHate => c.homophobic || c.sexist || c.racist,
        Category::Neutral => !c.toxic && !c.abusive && !c.threat && !c.provocative && !c.obscene
            && !c.hate_speech && !c.racist && !c.nationalist && !c.sexist && !c.homophobic
            && !c.religious_hate && !c.radicalism,
    }
}

/// The positions, in order, of the comments filed under `cat`.
pub fn classify(comments: &Vec<Comment>, cat: Category) -> (r: Vec<usize>)
    ensures
        selects(r@, comments@.len(), filed(comments@, cat)),
{
    let mut keep: Vec<bool> = Vec::with_capacity(comments.len());
    let mut k: usize = 0;
    while k < comments.len()
        invariant
            0 <= k <= comments@.len(),
            keep@ == filed(comments@, cat).take(k as int),
        decreases comments@.len() - k,
    {
        keep.push(is_in(&comments[k], cat));
        k = k + 1;
        assert(keep@ =~= filed(comments@, cat).take(k as int));
    }
    assert(keep@ =~= filed(comments@, cat));
    select(&keep)
}

/// What `str::to_lowercase` makes of a string.
pub uninterp spec fn lower_of(s: Seq<char>) -> Seq<char>;

/// Relies on `str::to_lowercase`: the result depends on the characters alone.
#[verifier::external_body]
fn lowercase(s: &str) -> (r: String)
    ensures
        r@ == lower_of(s@),
{
    s.to_lowercase()
}

/// The truth value a lower-case label word stands for: `t`, `true`, `1`,
/// `on`, `y`, `yes` are true; `f`, `false`, `0`, `off`, `n`, `no` are false;
/// any other word has none.
pub open spec fn flag_of(t: Seq<char>) -> Option<bool> {
    if t == "t"@ || t == "true"@ || t == "1"@ || t == "on"@ || t == "y"@ || t == "yes"@ {
        Some(true)
    } else if t == "f"@ || t == "false"@ || t == "0"@ || t == "off"@ || t == "n"@ || t == "no"@ {
        Some(false)
    } else {
        None
    }
}

fn same_text(a: &String, b: &str) -> (r: bool)
    ensures
        r == (a@ == b@),
{
    *a == b.to_owned()
}

/// Reads a lower-case label word.
pub fn flag_value(lowered: &String) -> (r: Option<bool>)
    ensures
        r == flag_of(lowered@),
{
    if same_text(lowered, "t") || same_text(lowered, "true") || same_text(lowered, "1")
        || same_text(lowered, "on") || same_text(lowered, "y") || same_text(lowered, "yes") {
        Some(true)
    } else if same_text(lowered, "f") || same_text(lowered, "false") || same_text(lowered, "0")
        || same_text(lowered, "off") || same_text(lowered, "n") || same_text(lowered, "no") {
        Some(false)
    } else {
        None
    }
}

/// Reads a label word in any letter case; `None` for a word that is neither
/// truthy nor falsey.
pub fn str_to_bool(s: &str) -> (r: Option<bool>)
    ensures
        r == flag_of(lower_of(s@)),
{
    let lowered = lowercase(s);
    flag_value(&lowered)
}

} // verus!
