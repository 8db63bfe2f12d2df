//! The token loop of local generation with a quantized Llama model: the
//! prompt is tokenized, tokens are sampled one at a time from the last
//! one until the end-of-sequence token or the token budget, and each new
//! token is decoded, appended to the text and streamed to the caller.
use vstd::prelude::*;
use crate::text::{concat2, concat_all, push_str, starts_with, views};

verus! {

#[verifier::external_type_specification]
#[verifier::external_body]
pub struct ExModelWeights(candle_transformers::models::quantized_llama::ModelWeights);

#[verifier::external_type_specification]
#[verifier::external_body]
pub struct ExLogitsProcessor(candle_transformers::generation::LogitsProcessor);

#[verifier::external_type_specification]
#[verifier::external_body]
pub struct ExTokenizer(tokenizers::Tokenizer);

#[verifier::external_type_specification]
#[verifier::external_body]
pub struct ExDevice(candle_core::Device);

/// The token ids of `prompt`, special tokens added (`Tokenizer::encode`,
/// then `get_ids`), or the error's text. Nothing is claimed of the ids:
/// they depend on the vocabulary the tokenizer was loaded with.
#[verifier::external_body]
fn encode_ids(tokenizer: &tokenizers::Tokenizer, prompt: &str) -> (r: Result<Vec<u32>, String>) {
    match tokenizer.encode(prompt, true) {
        Ok(e) => Ok(e.get_ids().to_vec()),
        Err(e) => Err(e.to_string()),
    }
}

/// The id of `</s>` in the tokenizer's vocabulary, added tokens included
/// (`Tokenizer::get_vocab`); nothing is claimed of it.
#[verifier::external_body]
fn end_token_id(tokenizer: &tokenizers::Tokenizer) -> (r: Option<u32>) {
    tokenizer.get_vocab(true).get("</s>").cloned()
}

/// The next token after `last` at position `position`: the model is run
/// on it (`Tensor::new` and `unsqueeze` make the one-token batch,
/// `ModelWeights::forward` and `squeeze` give the logits) and the logits
/// are sampled (`LogitsProcessor::sample`); or the error's text. The
/// tensors live only inside this call. Nothing is claimed of the token:
/// it depends on the weights and on the sampler's random state.
#[verifier::external_body]
fn sample_next(
    model: &mut candle_transformers::models::quantized_llama::ModelWeights,
    processor: &mut candle_transformers::generation::LogitsProcessor,
    device: &candle_core::Device,
    last: u32,
    position: usize,
) -> (r: Result<u32, String>) {
    let input = candle_core::Tensor::new(&[last], device).and_then(|t| t.unsqueeze(0));
    let logits = input.and_then(|i| model.forward(&i, position)).and_then(|l| l.squeeze(0));
    logits.and_then(|l| processor.sample(&l)).map_err(|e| e.to_string())
}

/// The text of token `token`, special tokens skipped (`Tokenizer::decode`),
/// or the error's text; nothing is claimed of it.
#[verifier::external_body]
fn decode_token(tokenizer: &tokenizers::Tokenizer, token: u32) -> (r: Result<String, String>) {
    tokenizer.decode(&[token], true).map_err(|e| e.to_string())
}

/// The state of a generation: the tokens so far (the prompt's, then the
/// generated ones), the generated text, and the steps taken of the budget.
#[derive(Debug, Clone)]
pub struct TokenLoop {
    pub tokens: Vec<u32>,
    pub text: String,
    pub steps: usize,
    pub max_tokens: usize,
    pub end_token: u32,
}

impl TokenLoop {
    /// The loop for a prompt tokenized as `prompt_ids`, with a budget of
    /// `max_tokens` steps; the end token is `</s>`, or id 2 when the
    /// vocabulary has none.
    pub fn start(prompt_ids: Vec<u32>, max_tokens: usize, end_token: Option<u32>) -> (l: Self)
        ensures
            l.tokens@ == prompt_ids@,
            l.text@ == Seq::<char>::empty(),
            l.steps == 0,
            l.max_tokens == max_tokens,
            l.end_token == match end_token {
                Some(t) => t,
                None => 2u32,
            },
    {
        let end = match end_token {
            Some(t) => t,
            None => 2,
        };
        TokenLoop { tokens: prompt_ids, text: String::new(), steps: 0, max_tokens, end_token: end }
    }

    /// Whether another step may be taken.
    pub fn wants_more(&self) -> (b: bool)
        ensures
            b == (self.steps < self.max_tokens),
    {
        self.steps < self.max_tokens
    }

    /// What the model is run on next: the last token and the number of
    /// tokens so far; `Empty tokens` when there is none.
    pub fn next_input(&self) -> (r: Result<(u32, usize), String>)
        ensures
            self.tokens@.len() == 0 ==> (r matches Err(e) && e@ == "Empty tokens"@),
            self.tokens@.len() > 0 ==> r == Ok::<(u32, usize), String>(
                (self.tokens@.last(), self.tokens@.len() as usize),
            ),
    {
        if self.tokens.len() == 0 {
            return Err("Empty tokens".to_owned());
        }
        Ok((self.tokens[self.tokens.len() - 1], self.tokens.len()))
    }

    /// Takes a sampled token: `false` (and nothing changes) for the end
    /// token, which ends the generation; otherwise the token is added and
    /// `true` returned.
    pub fn take_token(&mut self, token: u32) -> (go_on: bool)
        ensures
            go_on == (token != old(self).end_token),
            go_on ==> final(self).tokens@ == old(self).tokens@.push(token),
            !go_on ==> final(self).tokens@ == old(self).tokens@,
            final(self).text@ == old(self).text@,
            final(self).steps == old(self).steps,
            final(self).max_tokens == old(self).max_tokens,
            final(self).end_token == old(self).end_token,
    {
        if token == self.end_token {
            return false;
        }
        self.tokens.push(token);
        true
    }

    /// Appends the text of the token just taken and ends the step.
    pub fn take_piece(&mut self, piece: &str)
        requires
            old(self).steps < old(self).max_tokens,
        ensures
            final(self).text@ == old(self).text@ + piece@,
            final(self).steps == old(self).steps + 1,
            final(self).tokens@ == old(self).tokens@,
            final(self).max_tokens == old(self).max_tokens,
            final(self).end_token == old(self).end_token,
    {
        push_str(&mut self.text, piece);
        self.steps = self.steps + 1;
    }
}

/// The errors a generation can end with: a tokenization error marked as
/// such; every other error (a decoding error marked `Decode error: `,
/// `Empty tokens` after an empty tokenization, or the text of a sampling
/// error, which the sampler writes) comes only when a token is asked for,
/// that is with a budget above zero.
pub open spec fn generation_error(e: Seq<char>, max_tokens: nat) -> bool {
    starts_with(e, "Tokenization error: "@) || max_tokens > 0
}

/// Generates at most `max_tokens` tokens after `prompt`, streaming the text
/// of each to `callback`, and returns the whole text: the texts of the
/// tokens sampled before the end token or the end of the budget, in order.
/// Errors of tokenization and decoding are marked as such; an empty
/// tokenization ends with `Empty tokens` when a token is asked for.
pub fn generate_with<F: Fn(String)>(
    model: &mut candle_transformers::models::quantized_llama::ModelWeights,
    tokenizer: &tokenizers::Tokenizer,
    device: &candle_core::Device,
    processor: &mut candle_transformers::generation::LogitsProcessor,
    prompt: &str,
    max_tokens: usize,
    callback: &F,
) -> (r: Result<String, String>)
    requires
        forall|s: String| #[trigger] callback.requires((s,)),
    ensures
        r matches Ok(text) ==> exists|pieces: Seq<Seq<char>>|
            pieces.len() <= max_tokens && text@ == concat_all(pieces),
        r matches Ok(text) ==> exists|streamed: Seq<String>|
            {
                &&& streamed.len() <= max_tokens
                &&& text@ == concat_all(views(streamed))
                &&& forall|i: int| 0 <= i < streamed.len() ==> callback.ensures((#[trigger] streamed[i],), ())
            },
        r matches Err(e) ==> generation_error(e@, max_tokens as nat),
{
    let ids = match encode_ids(tokenizer, prompt) {
        Ok(ids) => ids,
        Err(e) => {
            let msg = concat2("Tokenization error: ", e.as_str());
            assert(msg@.subrange(0, "Tokenization error: "@.len() as int) =~= "Tokenization error: "@);
            return Err(msg);
        },
    };
    let end = end_token_id(tokenizer);
    let mut state = TokenLoop::start(ids, max_tokens, end);
    let ghost mut pieces: Seq<Seq<char>> = seq![];
    let ghost mut streamed: Seq<String> = seq![];
    while state.wants_more()
        invariant
            state.max_tokens == max_tokens,
            state.steps <= state.max_tokens,
            state.steps == pieces.len(),
            state.text@ == concat_all(pieces),
            pieces == views(streamed),
            forall|i: int| 0 <= i < streamed.len() ==> callback.ensures((#[trigger] streamed[i],), ()),
            forall|s: String| #[trigger] callback.requires((s,)),
        ensures
            state.steps <= max_tokens,
            state.steps == pieces.len(),
            state.text@ == concat_all(pieces),
            pieces == views(streamed),
            forall|i: int| 0 <= i < streamed.len() ==> callback.ensures((#[trigger] streamed[i],), ()),
        decreases state.max_tokens - state.steps,
    {
        let (last, position) = match state.next_input() {
            Ok(x) => x,
            Err(e) => {
                return Err(e);
            },
        };
        let next = match sample_next(model, processor, device, last, position) {
            Ok(t) => t,
            Err(e) => {
                return Err(e);
            },
        };
        if !state.take_token(next) {
            break;
        }
        let piece = match decode_token(tokenizer, next) {
            Ok(p) => p,
            Err(e) => {
                return Err(concat2("Decode error: ", e.as_str()));
            },
        };
        state.take_piece(piece.as_str());
        proof {
            assert(concat_all(pieces.push(piece@)) == concat_all(pieces) + piece@) by {
                assert(pieces.push(piece@).drop_last() =~= pieces);
            }
            pieces = pieces.push(piece@);
        }
        let ghost sent = piece;
        callback(piece);
        proof {
            assert(views(streamed.push(sent)) =~= views(streamed).push(sent@));
            streamed = streamed.push(sent);
        }
    }
    assert(pieces.len() <= max_tokens && state.text@ == concat_all(pieces));
    assert(streamed.len() <= max_tokens && state.text@ == concat_all(views(streamed)));
    Ok(state.text)
}

} // verus!
