//! Error taxonomy of the orchestration core.
//!
//! Every failure a caller can observe is one of the variants below, each with
//! a fixed status code and a stable category string. Validation failures are
//! raised before any capacity is consumed; stream consumers receive the same
//! information as a terminal event instead of a protocol-level abort.

use vstd::prelude::*;

verus! {

/// Request shapes that are rejected before the backend is contacted.
#[derive(Clone, Copy, PartialEq, Eq, Structural, Debug)]
pub enum ValidationError {
    /// Best-of sampling produces several candidates; a single ordered event
    /// stream can deliver only one, so the combination is refused.
    BestOfStream,
    /// Prefill token details cannot be delivered over an event stream.
    PrefillDetailsStream,
}

/// Errors surfaced by the orchestration core.
#[derive(Clone, PartialEq, Eq, Debug)]
pub enum InferError {
    /// The backend reported a failure while generating.
    GenerationError(String),
    /// The admission gate or the backend declined capacity.
    Overloaded,
    /// The request shape is unsupported.
    ValidationError(ValidationError),
    /// A blocking call ended without a terminal result.
    IncompleteGeneration,
    /// A stream ended without a terminal event.
    IncompleteGenerationStream,
    /// Chat templating failed before any generation started.
    TemplateError(String),
    /// A template variable was missing before any generation started.
    MissingTemplateVariable(String),
    /// Tool-call output could not be used even after the no-tool fallback.
    ToolError(String),
    /// An event could not be encoded for the wire.
    StreamSerializationError(String),
}

/// Status code of each error category, as the wire layer reports it.
pub open spec fn spec_status_code(e: InferError) -> u16 {
    match e {
        InferError::GenerationError(_) => 424,
        InferError::Overloaded => 429,
        InferError::ValidationError(_) => 422,
        InferError::IncompleteGeneration => 500,
        InferError::IncompleteGenerationStream => 500,
        InferError::TemplateError(_) => 422,
        InferError::MissingTemplateVariable(_) => 422,
        InferError::ToolError(_) => 422,
        InferError::StreamSerializationError(_) => 500,
    }
}

/// Stable category string of each error.
pub open spec fn spec_error_type(e: InferError) -> Seq<char> {
    match e {
        InferError::GenerationError(_) => "generation"@,
        InferError::Overloaded => "overloaded"@,
        InferError::ValidationError(_) => "validation"@,
        InferError::IncompleteGeneration => "incomplete_generation"@,
        InferError::IncompleteGenerationStream => "incomplete_generation_stream"@,
        InferError::TemplateError(_) => "template_error"@,
        InferError::MissingTemplateVariable(_) => "template_error"@,
        InferError::ToolError(_) => "tool_error"@,
        InferError::StreamSerializationError(_) => "stream_serialization_error"@,
    }
}

/// Human-readable message of each error.
pub open spec fn spec_message(e: InferError) -> Seq<char> {
    match e {
        InferError::GenerationError(m) => "Request failed during generation: "@ + m@,
        InferError::Overloaded => "Model is overloaded"@,
        InferError::ValidationError(v) => "Input validation error: "@ + spec_validation_message(v),
        InferError::IncompleteGeneration => "Incomplete generation"@,
        InferError::IncompleteGenerationStream => "Incomplete generation stream"@,
        InferError::TemplateError(m) => "Template error: "@ + m@,
        InferError::MissingTemplateVariable(m) => "Missing template variable: "@ + m@,
        InferError::ToolError(m) => "Tool error: "@ + m@,
        InferError::StreamSerializationError(m) => "Stream serialization error: "@ + m@,
    }
}

/// Human-readable message of each validation failure.
pub open spec fn spec_validation_message(v: ValidationError) -> Seq<char> {
    match v {
        ValidationError::BestOfStream => "`best_of` != 1 is not supported when streaming tokens"@,
        ValidationError::PrefillDetailsStream => "`decoder_input_details` == true is not supported when streaming tokens"@,
    }
}

/// Client-facing error body: a message and a stable category.
#[derive(Clone, PartialEq, Eq, Debug)]
pub struct ErrorResponse {
    pub error: String,
    pub error_type: String,
}

impl InferError {
    /// The status code this error maps to.
    pub fn status_code(&self) -> (code: u16)
        ensures
            code == spec_status_code(*self),
    {
        match self {
            InferError::GenerationError(_) => 424,
            InferError::Overloaded => 429,
            InferError::ValidationError(_) => 422,
            InferError::IncompleteGeneration => 500,
            InferError::IncompleteGenerationStream => 500,
            InferError::TemplateError(_) => 422,
            InferError::MissingTemplateVariable(_) => 422,
            InferError::ToolError(_) => 422,
            InferError::StreamSerializationError(_) => 500,
        }
    }

    /// The stable category string of this error.
    pub fn error_type(&self) -> (r: &'static str)
        ensures
            r@ == spec_error_type(*self),
    {
        match self {
            InferError::GenerationError(_) => "generation",
            InferError::Overloaded => "overloaded",
            InferError::ValidationError(_) => "validation",
            InferError::IncompleteGeneration => "incomplete_generation",
            InferError::IncompleteGenerationStream => "incomplete_generation_stream",
            InferError::TemplateError(_) => "template_error",
            InferError::MissingTemplateVariable(_) => "template_error",
            InferError::ToolError(_) => "tool_error",
            InferError::StreamSerializationError(_) => "stream_serialization_error",
        }
    }

    /// The human-readable message of this error.
    pub fn message(&self) -> (r: String)
        ensures
            r@ == spec_message(*self),
    {
        match self {
            InferError::GenerationError(m) => {
                let mut s = String::from_str("Request failed during generation: ");
                s.append(m.as_str());
                s
            },
            InferError::Overloaded => String::from_str("Model is overloaded"),
            InferError::ValidationError(v) => {
                let mut s = String::from_str("Input validation error: ");
                s.append(v.message_str());
                s
            },
            InferError::IncompleteGeneration => String::from_str("Incomplete generation"),
            InferError::IncompleteGenerationStream => String::from_str(
                "Incomplete generation stream",
            ),
            InferError::TemplateError(m) => {
                let mut s = String::from_str("Template error: ");
                s.append(m.as_str());
                s
            },
            InferError::MissingTemplateVariable(m) => {
                let mut s = String::from_str("Missing template variable: ");
                s.append(m.as_str());
                s
            },
            InferError::ToolError(m) => {
                let mut s = String::from_str("Tool error: ");
                s.append(m.as_str());
                s
            },
            InferError::StreamSerializationError(m) => {
                let mut s = String::from_str("Stream serialization error: ");
                s.append(m.as_str());
                s
            },
        }
    }

    /// The full client-facing body for this error: message plus category.
    pub fn to_response(&self) -> (r: ErrorResponse)
        ensures
            r.error@ == spec_message(*self),
            r.error_type@ == spec_error_type(*self),
    {
        ErrorResponse { error: self.message(), error_type: String::from_str(self.error_type()) }
    }
}

/// Failures of the serving process itself, outside any one request.
#[derive(Clone, PartialEq, Eq, Debug)]
pub enum WebServerError {
    /// The HTTP server could not start or failed while serving.
    Server(String),
    /// The tokenizer could not be loaded.
    Tokenizer(String),
}

impl WebServerError {
    /// The human-readable message of this failure.
    pub fn message(&self) -> (r: String)
        ensures
            *self matches WebServerError::Server(m) ==> r@ == "Server error: "@ + m@,
            *self matches WebServerError::Tokenizer(m) ==> r@ == "Tokenizer error: "@ + m@,
    {
        match self {
            WebServerError::Server(m) => {
                let mut s = String::from_str("Server error: ");
                s.append(m.as_str());
                s
            },
            WebServerError::Tokenizer(m) => {
                let mut s = String::from_str("Tokenizer error: ");
                s.append(m.as_str());
                s
            },
        }
    }
}

impl ValidationError {
    /// The human-readable message of this validation failure.
    pub fn message_str(&self) -> (r: &'static str)
        ensures
            r@ == spec_validation_message(*self),
    {
        match self {
            ValidationError::BestOfStream => "`best_of` != 1 is not supported when streaming tokens",
            ValidationError::PrefillDetailsStream => "`decoder_input_details` == true is not supported when streaming tokens",
        }
    }
}

} // verus!
