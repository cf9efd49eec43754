//! Interpretation of a model's output row.
//!
//! Scores travel as IEEE-754 binary32 bit patterns (`f32::to_bits`), so that
//! their order can be stated and checked exactly. Two scores compare as the
//! floats they encode do, except that a NaN compares equal to everything.

use vstd::prelude::*;

use crate::dataset::Category;
use crate::error::{Error, LoadIssue};

verus! {

/// Whether the bit pattern encodes a NaN (all exponent bits set, non-zero
/// fraction).
pub open spec fn is_nan_bits(b: u32) -> bool {
    (b & 0x7fff_ffffu32) > 0x7f80_0000u32
}

/// The position of a non-NaN float on the number line, up to scale: the
/// magnitude bits, negated for a set sign bit; both zeros map to 0.
pub open spec fn score_key(b: u32) -> int {
    if b >= 0x8000_0000u32 {
        -((b & 0x7fff_ffffu32) as int)
    } else {
        (b & 0x7fff_ffffu32) as int
    }
}

/// `a` is strictly greater than `b` as floats; false whenever either is NaN.
pub open spec fn beats(a: u32, b: u32) -> bool {
    !is_nan_bits(a) && !is_nan_bits(b) && score_key(a) > score_key(b)
}

/// The index that a left-to-right scan of the first `n` scores keeps: a later
/// score replaces the kept one only when it is strictly greater, so the
/// earliest maximum wins and NaN never displaces nor is displaced.
pub open spec fn best_index(s: Seq<u32>, n: nat) -> nat
    decreases n,
{
    if n <= 1 {
        0
    } else {
        let b = best_index(s, (n - 1) as nat);
        if beats(s[n - 1], s[b as int]) {
            (n - 1) as nat
        } else {
            b
        }
    }
}

/// Whether no score of `s` is NaN.
pub open spec fn no_nan(s: Seq<u32>) -> bool {
    forall|j: int| 0 <= j < s.len() ==> !is_nan_bits(#[trigger] s[j])
}

/// How a model's output row is read.
#[derive(Clone, Copy, Debug, PartialEq, Eq, Structural)]
pub enum OutputKind {
    /// One class out of `classes`: the highest score wins.
    Argmax { classes: usize },
    /// Independent per-class probabilities, this many of them.
    RawVector(usize),
}

/// The number of columns the model must declare for this kind.
pub open spec fn output_width(kind: OutputKind) -> usize {
    match kind {
        OutputKind::Argmax { classes } => classes,
        OutputKind::RawVector(n) => n,
    }
}

/// The reading of one output row.
#[derive(Debug)]
pub enum Prediction {
    /// The winning class and its score's bit pattern.
    Label { index: usize, confidence: u32 },
    /// Every class's score, in label order, as bit patterns.
    Scores(Vec<u32>),
}

/// Compares two scores as `partial_cmp` on the floats would, with NaN
/// taken as equal: returns whether `a` is strictly greater than `b`.
pub fn score_gt(a: u32, b: u32) -> (r: bool)
    ensures
        r == beats(a, b),
{
    let ma = a & 0x7fff_ffffu32;
    let mb = b & 0x7fff_ffffu32;
    if ma > 0x7f80_0000u32 || mb > 0x7f80_0000u32 {
        return false;
    }
    let na = a >= 0x8000_0000u32;
    let nb = b >= 0x8000_0000u32;
    if !na && !nb {
        ma > mb
    } else if na && nb {
        ma < mb
    } else if na {
        false
    } else {
        ma > 0 || mb > 0
    }
}

proof fn lemma_best_index_bound(s: Seq<u32>, n: nat)
    ensures
        n >= 1 ==> best_index(s, n) < n,
        n == 0 ==> best_index(s, n) == 0,
    decreases n,
{
    if n > 1 {
        lemma_best_index_bound(s, (n - 1) as nat);
    }
}

/// Without NaN, the scan keeps a maximum, and no earlier score reaches it.
proof fn lemma_best_index_is_first_max(s: Seq<u32>, n: nat)
    requires
        1 <= n <= s.len(),
        no_nan(s),
    ensures
        forall|j: int| 0 <= j < n ==> score_key(#[trigger] s[j]) <= score_key(s[best_index(s, n) as int]),
        forall|j: int| 0 <= j < best_index(s, n) ==> score_key(#[trigger] s[j]) < score_key(s[best_index(s, n) as int]),
    decreases n,
{
    lemma_best_index_bound(s, n);
    if n > 1 {
        lemma_best_index_is_first_max(s, (n - 1) as nat);
        lemma_best_index_bound(s, (n - 1) as nat);
        assert(!is_nan_bits(s[n - 1]));
        assert(!is_nan_bits(s[best_index(s, (n - 1) as nat) as int]));
    }
}

/// Picks the winning class of a single-label output: the index a
/// left-to-right scan keeps and its score; `Empty` when there is no score.
pub fn argmax(scores: &Vec<u32>) -> (r: Result<(usize, u32), Error>)
    ensures
        match r {
            Err(e) => scores@.len() == 0 && e is Empty,
            Ok((i, v)) => {
                &&& scores@.len() > 0
                &&& i < scores@.len()
                &&& i == best_index(scores@, scores@.len())
                &&& v == scores@[i as int]
                &&& no_nan(scores@) ==> forall|j: int|
                    0 <= j < scores@.len() ==> score_key(#[trigger] scores@[j]) <= score_key(v)
                &&& no_nan(scores@) ==> forall|j: int|
                    0 <= j < i ==> score_key(#[trigger] scores@[j]) < score_key(v)
            },
        },
{
    let n = scores.len();
    if n == 0 {
        return Err(Error::Empty);
    }
    let mut best: usize = 0;
    let mut k: usize = 1;
    while k < n
        invariant
            n == scores@.len(),
            1 <= k <= n,
            best == best_index(scores@, k as nat),
            best < k,
        decreases n - k,
    {
        if score_gt(scores[k], scores[best]) {
            best = k;
        }
        k = k + 1;
    }
    proof {
        lemma_best_index_bound(scores@, n as nat);
        if no_nan(scores@) {
            lemma_best_index_is_first_max(scores@, n as nat);
        }
    }
    Ok((best, scores[best]))
}

/// Reads one output row the way `kind` says: the winning class for
/// `Argmax`, the row itself, untouched, for `RawVector(n)`. Fails with
/// `Empty` on an empty row and with `Layout` on a row whose width is not
/// the kind's.
pub fn interpret(kind: OutputKind, output: Vec<u32>) -> (r: Result<Prediction, Error>)
    ensures
        match r {
            Err(e) => {
                ||| output@.len() == 0 && e is Empty
                ||| output@.len() > 0 && e is Layout && output@.len() != output_width(kind)
            },
            Ok(Prediction::Label { index, confidence }) => {
                &&& kind is Argmax
                &&& output@.len() > 0
                &&& output@.len() == output_width(kind)
                &&& index < output_width(kind)
                &&& index == best_index(output@, output@.len())
                &&& confidence == output@[index as int]
            },
            Ok(Prediction::Scores(v)) => {
                &&& kind is RawVector
                &&& output@.len() > 0
                &&& output@.len() == output_width(kind)
                &&& v@ == output@
            },
        },
{
    match kind {
        OutputKind::Argmax { classes } => {
            if output.len() > 0 && output.len() != classes {
                return Err(Error::Layout);
            }
            let (index, confidence) = argmax(&output)?;
            Ok(Prediction::Label { index, confidence })
        },
        OutputKind::RawVector(n) => {
            if output.len() == 0 {
                Err(Error::Empty)
            } else if output.len() != n {
                Err(Error::Layout)
            } else {
                Ok(Prediction::Scores(output))
            }
        },
    }
}

/// Reads the first of the tensors a model run returned, the way `kind`
/// says; `Empty` when the run returned none.
pub fn read_outputs(kind: OutputKind, outputs: Vec<Vec<u32>>) -> (r: Result<Prediction, Error>)
    ensures
        outputs@.len() == 0 ==> r matches Err(Error::Empty),
        outputs@.len() > 0 ==> match r {
            Err(e) => {
                ||| outputs@[0]@.len() == 0 && e is Empty
                ||| outputs@[0]@.len() > 0 && e is Layout && outputs@[0]@.len() != output_width(kind)
            },
            Ok(Prediction::Label { index, confidence }) => {
                &&& kind is Argmax
                &&& outputs@[0]@.len() > 0
                &&& outputs@[0]@.len() == output_width(kind)
                &&& index < output_width(kind)
                &&& index == best_index(outputs@[0]@, outputs@[0]@.len())
                &&& confidence == outputs@[0]@[index as int]
            },
            Ok(Prediction::Scores(v)) => {
                &&& kind is RawVector
                &&& outputs@[0]@.len() > 0
                &&& outputs@[0]@.len() == output_width(kind)
                &&& v@ == outputs@[0]@
            },
        },
{
    let mut outputs = outputs;
    if outputs.len() == 0 {
        return Err(Error::Empty);
    }
    let first = outputs.swap_remove(0);
    interpret(kind, first)
}

/// The label of each column of the toxicity model's output, in order.
pub open spec fn toxicity_order() -> Seq<Category> {
    seq![
        Category::IdentityHate,
        Category::Insult,
        Category::Neutral,
        Category::Obscene,
        Category::SevereToxic,
        Category::Threat,
        Category::Toxic,
    ]
}

/// The labels of the toxicity model's output columns, in order.
pub fn toxicity_columns() -> (r: Vec<Category>)
    ensures
        r@ == toxicity_order(),
{
    let r = vec![
        Category::IdentityHate,
        Category::Insult,
        Category::Neutral,
        Category::Obscene,
        Category::SevereToxic,
        Category::Threat,
        Category::Toxic,
    ];
    assert(r@ =~= toxicity_order());
    r
}

/// How the toxicity model's output is read: seven independent scores.
pub fn toxicity_kind() -> (r: OutputKind)
    ensures
        r == OutputKind::RawVector(7),
{
    OutputKind::RawVector(7)
}

/// How the nudity model's output is read: one class out of two.
pub fn nudity_kind() -> (r: OutputKind)
    ensures
        r == (OutputKind::Argmax { classes: 2 }),
{
    OutputKind::Argmax { classes: 2 }
}

/// The name of a class of the nudity model.
pub fn nudity_label(index: usize) -> (r: Option<&'static str>)
    ensures
        index == 0 ==> r == Some("not_nude"),
        index == 1 ==> r == Some("nude"),
        index >= 2 ==> r is None,
{
    if index == 0 {
        Some("not_nude")
    } else if index == 1 {
        Some("nude")
    } else {
        None
    }
}

/// Checks at load time that a model declares the output row that `kind`
/// reads, `[1, width]`; fails with `Load(OutputShape)` otherwise.
pub fn check_output_shape(declared: &Vec<usize>, kind: OutputKind) -> (r: Result<(), Error>)
    ensures
        r is Ok <==> declared@ == seq![1usize, output_width(kind)],
        r matches Err(e) ==> e matches Error::Load(LoadIssue::OutputShape),
{
    let width = match kind {
        OutputKind::Argmax { classes } => classes,
        OutputKind::RawVector(n) => n,
    };
    if declared.len() == 2 && declared[0] == 1 && declared[1] == width {
        assert(declared@ =~= seq![1usize, output_width(kind)]);
        Ok(())
    } else {
        Err(Error::Load(LoadIssue::OutputShape))
    }
}

} // verus!
