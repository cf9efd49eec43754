//! Text normalisation: a subword tokenizer turns a string into the id row
//! the text model reads.

use tokenizers::PostProcessor;
use vstd::prelude::*;

use crate::error::{Error, LoadIssue};
use crate::tensor::{Layout, Tensor};

verus! {

#[verifier::external_type_specification]
#[verifier::external_body]
pub struct ExTokenizer(tokenizers::Tokenizer);

/// Whether `tokenizers::Tokenizer::from_bytes` accepts a definition.
pub uninterp spec fn tokenizer_parses(definition: Seq<u8>) -> bool;

/// Relies on `tokenizers::Tokenizer::from_bytes`, which parses a tokenizer
/// definition in its JSON form; whether it succeeds depends on the bytes alone.
#[verifier::external_body]
fn parse_tokenizer(definition: &[u8]) -> (r: Option<tokenizers::Tokenizer>)
    ensures
        r is Some <==> tokenizer_parses(definition@),
{
    tokenizers::Tokenizer::from_bytes(definition).ok()
}

/// Relies on `TokenizerImpl::get_truncation` (reached through `Deref`):
/// the maximum length and the stride of the definition's truncation, if it
/// truncates.
#[verifier::external_body]
fn truncation_settings(tokenizer: &tokenizers::Tokenizer) -> (r: Option<(usize, usize)>) {
    match tokenizer.get_truncation() {
        Some(params) => Some((params.max_length, params.stride)),
        None => None,
    }
}

/// Relies on `TokenizerImpl::get_post_processor` and
/// `PostProcessor::added_tokens`: how many special tokens the post-processor
/// adds to a single sequence, if there is one.
#[verifier::external_body]
fn special_token_count(tokenizer: &tokenizers::Tokenizer) -> (r: Option<usize>) {
    match tokenizer.get_post_processor() {
        Some(processor) => Some(processor.added_tokens(false)),
        None => None,
    }
}

/// Whether encoding a single sequence with special tokens can truncate
/// safely: the special tokens fit in the maximum length, and the stride is
/// below the length that is left for the text.
pub open spec fn truncation_fits(truncation: Option<(usize, usize)>, added: usize) -> bool {
    match truncation {
        None => true,
        Some((max_length, stride)) => added <= max_length && stride < max_length - added,
    }
}

/// Decides whether a tokenizer with these truncation settings and this
/// many special tokens (none without a post-processor) is accepted.
pub fn truncation_is_safe(truncation: Option<(usize, usize)>, added: Option<usize>) -> (r: bool)
    ensures
        r == truncation_fits(truncation, added.unwrap_or(0)),
{
    let added = match added {
        Some(n) => n,
        None => 0,
    };
    match truncation {
        None => true,
        Some((max_length, stride)) => added <= max_length && stride < max_length - added,
    }
}

/// A tokenizer whose truncation settings were checked when it was loaded.
/// Only `load_tokenizer` makes one, and it is never changed afterwards.
pub struct TextTokenizer {
    tokenizer: tokenizers::Tokenizer,
    truncation: Option<(usize, usize)>,
    added: usize,
}

impl TextTokenizer {
    /// The settings recorded at load time let every text be encoded.
    #[verifier::type_invariant]
    pub closed spec fn wf(&self) -> bool {
        truncation_fits(self.truncation, self.added)
    }
}

/// Relies on `tokenizers::Tokenizer::encode` with special tokens added, and
/// on `Encoding::get_ids`; padding and truncation follow the definition.
/// `Encoding::truncate` panics unless the stride is below the maximum length
/// less the special tokens, and that subtraction must not underflow: the
/// recorded settings, which are the tokenizer's own, rule both out.
#[verifier::external_body]
fn encode_ids(tokenizer: &TextTokenizer, text: &str) -> (r: Option<Vec<u32>>)
    requires
        tokenizer.wf(),
{
    match tokenizer.tokenizer.encode(text, true) {
        Ok(encoding) => Some(encoding.get_ids().to_vec()),
        Err(_) => None,
    }
}

/// Makes a tokenizer from its definition. Fails with `Load(Tokenizer)` when
/// the definition does not parse, or when its truncation could not be
/// applied to a long text: more special tokens than the maximum length, or
/// a stride not below the length left for the text.
pub fn load_tokenizer(definition: &[u8]) -> (r: Result<TextTokenizer, Error>)
    ensures
        !tokenizer_parses(definition@) ==> r is Err,
        match r {
            Ok(t) => tokenizer_parses(definition@) && t.wf(),
            Err(e) => e matches Error::Load(LoadIssue::Tokenizer),
        },
{
    let tokenizer = match parse_tokenizer(definition) {
        Some(t) => t,
        None => return Err(Error::Load(LoadIssue::Tokenizer)),
    };
    let truncation = truncation_settings(&tokenizer);
    let added = special_token_count(&tokenizer);
    if truncation_is_safe(truncation, added) {
        let added = match added {
            Some(n) => n,
            None => 0,
        };
        Ok(TextTokenizer { tokenizer, truncation, added })
    } else {
        Err(Error::Load(LoadIssue::Tokenizer))
    }
}

/// Lays token ids out as the row tensor `[1, N]`, in order.
pub fn ids_tensor(ids: Vec<u32>) -> (t: Tensor<u32>)
    ensures
        t.wf(),
        t.order() == Layout::Sequence,
        t.dims() == seq![1usize, ids@.len() as usize],
        t.values() == ids@,
{
    let n = ids.len();
    Tensor::new(vec![1usize, n], Layout::Sequence, ids)
}

/// Turns what the tokenizer returned into the model's input row: the ids,
/// in order, as `[1, N]`; `Tokenization` exactly when encoding failed.
pub fn row_from_encoding(ids: Option<Vec<u32>>) -> (r: Result<Tensor<u32>, Error>)
    ensures
        r is Err <==> ids is None,
        r matches Err(e) ==> e is Tokenization,
        match r {
            Ok(t) => ids matches Some(v) && t.wf() && t.order() == Layout::Sequence
                && t.dims() == seq![1usize, v@.len() as usize] && t.values() == v@,
            Err(_) => true,
        },
{
    match ids {
        Some(v) => Ok(ids_tensor(v)),
        None => Err(Error::Tokenization),
    }
}

/// Encodes `text` into the model's input row `[1, N]` of token ids;
/// `Tokenization` when the tokenizer cannot encode it.
pub fn normalize_text(tokenizer: &TextTokenizer, text: &str) -> (r: Result<Tensor<u32>, Error>)
    ensures
        match r {
            Ok(t) => t.wf() && t.order() == Layout::Sequence && t.dims() == seq![
                1usize,
                t.values().len() as usize,
            ],
            Err(e) => e is Tokenization,
        },
{
    proof {
        use_type_invariant(tokenizer);
    }
    row_from_encoding(encode_ids(tokenizer, text))
}

} // verus!
