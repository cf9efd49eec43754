//! Shared pieces of the corpus preparation: the toxicity categories that
//! labelled comments are sorted into.

use vstd::prelude::*;

verus! {

/// A directory of the toxicity corpus.
#[derive(Clone, Copy, Debug, PartialEq, Eq, Structural)]
pub enum Category {
    Toxic,
    SevereToxic,
    Obscene,
    Threat,
    Insult,
    IdentityHate,
    Neutral,
}

/// The directory name of a category.
pub open spec fn category_name(c: Category) -> Seq<char> {
    match c {
        Category::Toxic => "toxic"@,
        Category::SevereToxic => "severe_toxic"@,
        Category::Obscene => "obscene"@,
        Category::Threat => "threat"@,
        Category::Insult => "insult"@,
        Category::IdentityHate => "identity_hate"@,
        Category::Neutral => "neutral"@,
    }
}

impl Category {
    /// The directory name of this category.
    pub fn name(&self) -> (r: &'static str)
        ensures
            r@ == category_name(*self),
    {
        match self {
            Category::Toxic => "toxic",
            Category::SevereToxic => "severe_toxic",
            Category::Obscene => "obscene",
            Category::Threat => "threat",
            Category::Insult => "insult",
            Category::IdentityHate => "identity_hate",
            Category::Neutral => "neutral",
        }
    }
}

/// `r` lists, in increasing order, exactly the indices below `n` at which
/// `keep` is true.
pub open spec fn selects(r: Seq<usize>, n: nat, keep: Seq<bool>) -> bool {
    &&& forall|i: int, j: int| 0 <= i < j < r.len() ==> r[i] < r[j]
    &&& forall|i: int| 0 <= i < r.len() ==> r[i] < n && keep[r[i] as int]
    &&& forall|k: int| 0 <= k < n && #[trigger] keep[k] ==> r.contains(k as usize)
}

/// The indices, in increasing order, at which `keep` is true.
pub fn select(keep: &Vec<bool>) -> (r: Vec<usize>)
    ensures
        selects(r@, keep@.len(), keep@),
{
    let mut r: Vec<usize> = Vec::new();
    let mut k: usize = 0;
    while k < keep.len()
        invariant
            0 <= k <= keep@.len(),
            selects(r@, k as nat, keep@),
        decreases keep@.len() - k,
    {
        let ghost before = r@;
        if keep[k] {
            r.push(k);
            assert(r@[r@.len() - 1] == k);
            assert(forall|j: int| 0 <= j < before.len() ==> r@[j] == before[j]);
        }
        assert forall|j: int| 0 <= j < k + 1 && #[trigger] keep@[j] implies r@.contains(j as usize) by {
            if j < k {
                assert(before.contains(j as usize));
                let t = choose|t: int| 0 <= t < before.len() && before[t] == j as usize;
                assert(r@[t] == j as usize);
            } else {
                assert(r@[r@.len() - 1] == k);
            }
        }
        k = k + 1;
    }
    r
}

} // verus!
