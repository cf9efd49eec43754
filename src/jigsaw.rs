//! Comments of the Jigsaw toxic-comment corpus and the categories they are
//! filed under.

use vstd::prelude::*;

use crate::dataset::{select, selects, Category};

verus! {

/// One labelled comment; each label is 1 when it applies, 0 otherwise.
#[derive(Debug)]
pub struct Comment {
    pub id: String,
    pub comment_text: String,
    pub toxic: u8,
    pub severe_toxic: u8,
    pub obscene: u8,
    pub threat: u8,
    pub insult: u8,
    pub identity_hate: u8,
}

/// The categories in the order the corpus is written out.
pub open spec fn category_order() -> Seq<Category> {
    seq![
        Category::Toxic,
        Category::SevereToxic,
        Category::Obscene,
        Category::Threat,
        Category::Insult,
        Category::IdentityHate,
        Category::Neutral,
    ]
}

/// Whether a comment is filed under a category: under a label's category
/// when that label is 1, under `Neutral` when every label is 0.
pub open spec fn files_under(c: Comment, cat: Category) -> bool {
    match cat {
        Category::Toxic => c.toxic == 1,
        Category::SevereToxic => c.severe_toxic == 1,
        Category::Obscene => c.obscene == 1,
        Category::Threat => c.threat == 1,
        Category::Insult => c.insult == 1,
        Category::IdentityHate => c.identity_hate == 1,
        Category::Neutral => c.toxic == 0 && c.severe_toxic == 0 && c.obscene == 0 && c.threat == 0
            && c.insult == 0 && c.identity_hate == 0,
    }
}

/// For each comment, whether it is filed under `cat`.
pub open spec fn filed(comments: Seq<Comment>, cat: Category) -> Seq<bool> {
    Seq::new(comments.len(), |k: int| files_under(comments[k], cat))
}

/// The categories of this corpus, in the order they are written out.
pub fn categories() -> (r: Vec<Category>)
    ensures
        r@ == category_order(),
{
    let r = vec![
        Category::Toxic,
        Category::SevereToxic,
        Category::Obscene,
        Category::Threat,
        Category::Insult,
        Category::IdentityHate,
        Category::Neutral,
    ];
    assert(r@ =~= category_order());
    r
}

/// Whether `c` is filed under `cat`.
pub fn is_in(c: &Comment, cat: Category) -> (r: bool)
    ensures
        r == files_under(*c, cat),
{
    match cat {
        Category::Toxic => c.toxic == 1,
        Category::SevereToxic => c.severe_toxic == 1,
        Category::Obscene => c.obscene == 1,
        Category::Threat => c.threat == 1,
        Category::Insult => c.insult == 1,
        Category::IdentityHate => c.identity_hate == 1,
        Category::Neutral => c.toxic == 0 && c.severe_toxic == 0 && c.obscene == 0 && c.threat == 0
            && c.insult == 0 && c.identity_hate == 0,
    }
}

/// The positions, in order, of the comments filed under `cat`.
pub fn classify(comments: &Vec<Comment>, cat: Category) -> (r: Vec<usize>)
    ensures
        selects(r@, comments@.len(), filed(comments@, cat)),
{
    let mut keep: Vec<bool> = Vec::with_capacity(comments.len());
    let mut k: usize = 0;
    while k < comments.len()
        invariant
            0 <= k <= comments@.len(),
            keep@ == filed(comments@, cat).take(k as int),
        decreases comments@.len() - k,
    {
        keep.push(is_in(&comments[k], cat));
        k = k + 1;
        assert(keep@ =~= filed(comments@, cat).take(k as int));
    }
    assert(keep@ =~= filed(comments@, cat));
    select(&keep)
}

} // verus!
