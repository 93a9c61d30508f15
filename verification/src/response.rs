//! Finalization of one blocking (non-streaming) generation: the backend's
//! resolved result is turned into the client response, the optional details
//! with best-of alternates, and the timing headers.

use vstd::prelude::*;
use crate::events::BackendResponse;
use crate::events::FinishReason;
use crate::events::PrefillToken;
use crate::events::Token;
use crate::request::GenerateRequest;
use crate::request::spec_add_prompt;
use crate::stream::spec_output_text;
use crate::timing::TimingBreakdown;
use crate::timing::Timestamps;

verus! {

/// One non-promoted candidate of a best-of request, attached to the
/// primary result's details.
#[derive(Clone, PartialEq, Eq, Debug)]
pub struct BestOfSequence {
    pub generated_text: String,
    pub finish_reason: FinishReason,
    pub generated_tokens: u32,
    pub prefill: Vec<PrefillToken>,
    pub tokens: Vec<Token>,
    pub top_tokens: Vec<Vec<Token>>,
    pub seed: Option<u64>,
}

/// Per-token details of a finished generation, when requested.
#[derive(Clone, PartialEq, Eq, Debug)]
pub struct Details {
    pub finish_reason: FinishReason,
    pub generated_tokens: u32,
    pub prefill: Vec<PrefillToken>,
    pub tokens: Vec<Token>,
    pub seed: Option<u64>,
    pub best_of_sequences: Option<Vec<BestOfSequence>>,
    pub top_tokens: Vec<Vec<Token>>,
}

/// The client-facing result of one blocking generation.
#[derive(Clone, PartialEq, Eq, Debug)]
pub struct GenerateResponse {
    pub generated_text: String,
    pub details: Option<Details>,
}

/// The response headers of a blocking call, as plain values. These are
/// computed by this layer, never by the backend.
#[derive(Clone, PartialEq, Eq, Debug)]
pub struct ResponseHeaders {
    pub compute_type: String,
    pub compute_characters: usize,
    pub timing: TimingBreakdown,
    pub prompt_tokens: u32,
    pub generated_tokens: u32,
}

/// The immediate headers of one streaming call: the compute type and the
/// prompt's character count, computed by this layer before any backend
/// event arrives.
pub fn stream_header_values(req: &GenerateRequest, compute_type: &String) -> (r: (String, u64))
    ensures
        r.0 == compute_type,
        r.1 == req.inputs@.len(),
{
    let n = req.inputs.as_str().unicode_len();
    (compute_type.clone(), n as u64)
}

/// How one best-of alternate relates to the candidate it came from: every
/// field is carried over, and the prompt is prepended to its text exactly
/// when the request asked for the full text back.
pub open spec fn spec_best_of_entry(
    s: BestOfSequence,
    c: BackendResponse,
    add_prompt: Option<String>,
) -> bool {
    &&& s.finish_reason == c.generated_text.finish_reason
    &&& s.generated_tokens == c.generated_text.generated_tokens
    &&& s.seed == c.generated_text.seed
    &&& s.prefill == c.prefill
    &&& s.tokens == c.tokens
    &&& s.top_tokens == c.top_tokens
    &&& s.generated_text@ == spec_output_text(add_prompt, c.generated_text.text@)
}

/// How the list of best-of alternates relates to the candidate list.
pub open spec fn spec_best_of_matches(
    seqs: Seq<BestOfSequence>,
    cands: Seq<BackendResponse>,
    add_prompt: Option<String>,
) -> bool {
    &&& seqs.len() == cands.len()
    &&& forall|i: int|
        0 <= i < cands.len() ==> spec_best_of_entry(#[trigger] seqs[i], cands[i], add_prompt)
}

/// The finished text with the prompt prepended when asked for.
pub fn full_output_text(add_prompt: &Option<String>, text: String) -> (r: String)
    ensures
        r@ == spec_output_text(*add_prompt, text@),
{
    match add_prompt {
        Some(p) => p.clone().concat(text.as_str()),
        None => text,
    }
}

/// Turn each best-of candidate into an alternate, prepending the prompt to
/// every candidate's text when asked for.
pub fn build_best_of_sequences(cands: Vec<BackendResponse>, add_prompt: &Option<String>) -> (seqs:
    Vec<BestOfSequence>)
    ensures
        spec_best_of_matches(seqs@, cands@, *add_prompt),
{
    let ghost cands0 = cands@;
    let mut remaining = cands;
    let mut seqs: Vec<BestOfSequence> = Vec::new();
    while remaining.len() != 0
        invariant
            seqs@.len() + remaining@.len() == cands0.len(),
            remaining@ == cands0.subrange(seqs@.len() as int, cands0.len() as int),
            forall|i: int|
                0 <= i < seqs@.len() ==> spec_best_of_entry(
                    #[trigger] seqs@[i],
                    cands0[i],
                    *add_prompt,
                ),
        decreases remaining@.len(),
    {
        proof {
            assert(remaining@[0] == cands0[seqs@.len() as int]);
            assert(remaining@.remove(0) =~= cands0.subrange(
                seqs@.len() as int + 1,
                cands0.len() as int,
            ));
        }
        let c = remaining.remove(0);
        let BackendResponse {
            input_length: _,
            prefill,
            tokens,
            top_tokens,
            generated_text,
            queued: _,
            started: _,
        } = c;
        let text = full_output_text(add_prompt, generated_text.text);
        seqs.push(
            BestOfSequence {
                generated_text: text,
                finish_reason: generated_text.finish_reason,
                generated_tokens: generated_text.generated_tokens,
                prefill,
                tokens,
                top_tokens,
                seed: generated_text.seed,
            },
        );
    }
    seqs
}

/// Finalize one blocking generation: compute the timing breakdown from the
/// four monotonic timestamps, assemble the optional details (with best-of
/// alternates when several candidates ran), prepend the prompt to every
/// returned text when asked for, and fill the response headers.
pub fn finalize_generation(
    req: &GenerateRequest,
    response: BackendResponse,
    best_of_responses: Option<Vec<BackendResponse>>,
    arrival: u64,
    completed: u64,
    compute_type: String,
) -> (r: (ResponseHeaders, u32, GenerateResponse))
    requires
        arrival <= response.queued <= response.started <= completed,
        response.generated_text.generated_tokens > 0,
    ensures
        r.2.generated_text@ == spec_output_text(
            spec_add_prompt(*req),
            response.generated_text.text@,
        ),
        r.2.details is Some <==> (req.parameters.details || req.parameters.decoder_input_details),
        r.2.details matches Some(d) ==> (d.finish_reason == response.generated_text.finish_reason
            && d.generated_tokens == response.generated_text.generated_tokens && d.seed
            == response.generated_text.seed && d.prefill == response.prefill && d.tokens
            == response.tokens && d.top_tokens == response.top_tokens),
        r.2.details matches Some(d) ==> (match best_of_responses {
            Some(cands) => d.best_of_sequences matches Some(seqs) && spec_best_of_matches(
                seqs@,
                cands@,
                spec_add_prompt(*req),
            ),
            None => d.best_of_sequences is None,
        }),
        r.0.compute_type == compute_type,
        r.0.compute_characters == req.inputs@.len(),
        r.0.timing.total_ns == completed - arrival,
        r.0.timing.validation_ns == response.queued - arrival,
        r.0.timing.queue_ns == response.started - response.queued,
        r.0.timing.inference_ns == completed - response.started,
        r.0.timing.time_per_token_ns == (completed - response.started) as u64
            / response.generated_text.generated_tokens as u64,
        r.0.prompt_tokens == response.input_length,
        r.0.generated_tokens == response.generated_text.generated_tokens,
        r.1 == response.input_length,
{
    let add_prompt: Option<String> = if req.parameters.return_full_text.unwrap_or(false) {
        Some(req.inputs.clone())
    } else {
        None
    };
    let want_details = req.parameters.details || req.parameters.decoder_input_details;

    let BackendResponse {
        input_length,
        prefill,
        tokens,
        top_tokens,
        generated_text,
        queued,
        started,
    } = response;

    let details = if want_details {
        let best_of_sequences = match best_of_responses {
            Some(cands) => Some(build_best_of_sequences(cands, &add_prompt)),
            None => None,
        };
        Some(
            Details {
                finish_reason: generated_text.finish_reason,
                generated_tokens: generated_text.generated_tokens,
                prefill,
                tokens,
                seed: generated_text.seed,
                best_of_sequences,
                top_tokens,
            },
        )
    } else {
        None
    };

    let timing = TimingBreakdown::new(
        Timestamps { arrival, queued, started, completed },
        generated_text.generated_tokens,
    );
    let headers = ResponseHeaders {
        compute_type,
        compute_characters: req.inputs.as_str().unicode_len(),
        timing,
        prompt_tokens: input_length,
        generated_tokens: generated_text.generated_tokens,
    };

    let output_text = full_output_text(&add_prompt, generated_text.text);
    (headers, input_length, GenerateResponse { generated_text: output_text, details })
}

} // verus!
