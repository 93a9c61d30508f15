//! One generation request as this layer reads it, and the checks applied to
//! it before any capacity is consumed.
//!
//! Sampling knobs that the orchestration layer only forwards (temperatures,
//! penalties and the like) are carried by the transport layer; the fields
//! here are the ones that change control flow.

use vstd::prelude::*;
use crate::errors::InferError;
use crate::errors::ValidationError;

verus! {

/// The request parameters that the orchestration layer reads.
#[derive(Clone, PartialEq, Eq, Debug)]
pub struct GenerateParameters {
    /// Number of independent candidates to generate; the best one is kept.
    pub best_of: Option<u32>,
    /// Prepend the prompt to every returned text.
    pub return_full_text: Option<bool>,
    /// Attach per-token details to the response.
    pub details: bool,
    /// Attach the tokenized input to the response.
    pub decoder_input_details: bool,
    /// Stop sequences.
    pub stop: Vec<String>,
    /// Token budget for the generation.
    pub max_new_tokens: Option<u32>,
    /// Pinned sampling seed, if the caller fixed one.
    pub seed: Option<u64>,
    /// Whether sampling is enabled at all.
    pub do_sample: bool,
    /// Adapter requested by naming a model other than the served one.
    pub adapter_id: Option<String>,
}

/// One admitted generation request. Immutable once admitted.
#[derive(Clone, PartialEq, Eq, Debug)]
pub struct GenerateRequest {
    /// The prompt text.
    pub inputs: String,
    /// Whether tokenization adds the model's special tokens.
    pub add_special_tokens: bool,
    pub parameters: GenerateParameters,
}

/// The effective best-of count: an absent value means one candidate.
pub open spec fn spec_best_of(p: GenerateParameters) -> u32 {
    match p.best_of {
        Some(b) => b,
        None => 1,
    }
}

/// The validation verdict for a streaming request. Best-of and prefill
/// details are structurally incompatible with a single ordered stream.
pub open spec fn spec_stream_validation(p: GenerateParameters) -> Option<ValidationError> {
    if spec_best_of(p) != 1 {
        Some(ValidationError::BestOfStream)
    } else if p.decoder_input_details {
        Some(ValidationError::PrefillDetailsStream)
    } else {
        None
    }
}

/// The prompt to prepend to returned texts, when the request asked for the
/// full text back.
pub open spec fn spec_add_prompt(req: GenerateRequest) -> Option<String> {
    if spec_return_full_text(req.parameters) {
        Some(req.inputs)
    } else {
        None
    }
}

/// Whether the prompt is prepended to returned texts.
pub open spec fn spec_return_full_text(p: GenerateParameters) -> bool {
    match p.return_full_text {
        Some(b) => b,
        None => false,
    }
}

impl GenerateParameters {
    /// The effective best-of count.
    pub fn effective_best_of(&self) -> (b: u32)
        ensures
            b == spec_best_of(*self),
    {
        match self.best_of {
            Some(b) => b,
            None => 1,
        }
    }

    /// Reject request shapes that cannot be delivered over a stream, before
    /// the backend is contacted. Succeeds exactly when one candidate is
    /// asked for and no prefill details are requested.
    pub fn validate_streamable(&self) -> (r: Result<(), InferError>)
        ensures
            r is Ok <==> spec_stream_validation(*self) is None,
            r matches Err(e) ==> spec_stream_validation(*self) matches Some(v) && e
                == InferError::ValidationError(v),
    {
        if self.effective_best_of() != 1 {
            Err(InferError::ValidationError(ValidationError::BestOfStream))
        } else if self.decoder_input_details {
            Err(InferError::ValidationError(ValidationError::PrefillDetailsStream))
        } else {
            Ok(())
        }
    }

    /// Fill the `return_full_text` default from the served model's kind,
    /// leaving an explicit client choice untouched.
    pub fn with_default_return_full_text(self, default: bool) -> (p: GenerateParameters)
        ensures
            p.return_full_text == match self.return_full_text {
                Some(b) => Some(b),
                None => Some(default),
            },
            p.best_of == self.best_of,
            p.details == self.details,
            p.decoder_input_details == self.decoder_input_details,
            p.stop == self.stop,
            p.max_new_tokens == self.max_new_tokens,
            p.seed == self.seed,
            p.do_sample == self.do_sample,
            p.adapter_id == self.adapter_id,
    {
        let return_full_text = match self.return_full_text {
            Some(b) => Some(b),
            None => Some(default),
        };
        GenerateParameters { return_full_text, ..self }
    }
}

/// Whether the compatibility entry point prepends prompts by default: it
/// does exactly for plain text-generation models, and when the model kind
/// is unknown.
pub fn compat_return_full_text_default(pipeline_tag: Option<&String>) -> (r: bool)
    ensures
        r <==> (pipeline_tag is None || (pipeline_tag matches Some(t) && t@ == "text-generation"@)),
{
    match pipeline_tag {
        None => true,
        Some(tag) => *tag == String::from_str("text-generation"),
    }
}

} // verus!
