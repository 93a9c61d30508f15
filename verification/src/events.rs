//! Data model of one generation: tokens, backend events and finished
//! results, together with the well-formedness of a branch's event sequence.
//!
//! The backend is opaque; it is only visible through the values modelled
//! here. Timestamps are monotonic clock readings in nanoseconds, taken by
//! the host process, never by the backend.

use vstd::prelude::*;

verus! {

/// Why a generation stopped.
#[derive(Clone, Copy, PartialEq, Eq, Structural, Debug)]
pub enum FinishReason {
    /// The configured token budget ran out.
    Length,
    /// The model emitted its end-of-sequence token.
    EndOfSequenceToken,
    /// A caller-supplied stop sequence matched.
    StopSequence,
}

impl FinishReason {
    /// The wire name of the reason as the native dialect reports it.
    pub fn as_str(&self) -> (r: &'static str)
        ensures
            r@ == spec_finish_reason_str(*self),
    {
        match self {
            FinishReason::Length => "length",
            FinishReason::EndOfSequenceToken => "eos_token",
            FinishReason::StopSequence => "stop_sequence",
        }
    }

    /// The wire name of the reason. With `compat` set, the two model-driven
    /// stops collapse to the compatibility dialect's single "stop" value.
    pub fn format(&self, compat: bool) -> (r: &'static str)
        ensures
            r@ == spec_finish_reason_format(*self, compat),
    {
        if compat {
            match self {
                FinishReason::Length => "length",
                FinishReason::EndOfSequenceToken => "stop",
                FinishReason::StopSequence => "stop",
            }
        } else {
            self.as_str()
        }
    }
}

/// The native wire name of a finish reason.
pub open spec fn spec_finish_reason_str(f: FinishReason) -> Seq<char> {
    match f {
        FinishReason::Length => "length"@,
        FinishReason::EndOfSequenceToken => "eos_token"@,
        FinishReason::StopSequence => "stop_sequence"@,
    }
}

/// The wire name of a finish reason, in the native or compatibility dialect.
pub open spec fn spec_finish_reason_format(f: FinishReason, compat: bool) -> Seq<char> {
    if compat {
        match f {
            FinishReason::Length => "length"@,
            FinishReason::EndOfSequenceToken => "stop"@,
            FinishReason::StopSequence => "stop"@,
        }
    } else {
        spec_finish_reason_str(f)
    }
}

/// One generated token, holding the fields this layer reads or forwards.
#[derive(Clone, PartialEq, Eq, Debug)]
pub struct Token {
    pub id: u32,
    pub text: String,
    pub special: bool,
}

/// One token of the tokenized input, reported by the prefill phase.
#[derive(Clone, PartialEq, Eq, Debug)]
pub struct PrefillToken {
    pub id: u32,
    pub text: String,
}

/// The finished text of one generation, with the data needed to report it.
#[derive(Clone, PartialEq, Eq, Debug)]
pub struct FinalizedText {
    pub text: String,
    pub finish_reason: FinishReason,
    pub generated_tokens: u32,
    pub seed: Option<u64>,
}

/// One event of a generation stream. For one branch, events are strictly
/// ordered: any number of `Prefill` events, then any number of `Token`
/// events, then exactly one `End` (or a terminal error in its place), and
/// nothing after the terminal.
#[derive(Clone, PartialEq, Eq, Debug)]
pub enum StreamEvent {
    /// The backend accepted the tokenized input; generation has not started.
    Prefill(Vec<PrefillToken>),
    /// One new token.
    Token { token: Token, top_tokens: Vec<Token> },
    /// The terminal event: the last token together with the finished text
    /// and the two backend-side timestamps (queued, inference started).
    End {
        token: Token,
        generated_text: FinalizedText,
        queued: u64,
        started: u64,
        top_tokens: Vec<Token>,
    },
}

impl StreamEvent {
    /// Whether this event ends its branch.
    pub open spec fn spec_is_terminal(self) -> bool {
        self is End
    }

    /// Whether this event ends its branch.
    pub fn is_terminal(&self) -> (r: bool)
        ensures
            r == self.spec_is_terminal(),
    {
        match self {
            StreamEvent::End { .. } => true,
            _ => false,
        }
    }
}

/// The resolved result of one blocking (non-streaming) generation call, as
/// handed back by the backend.
#[derive(Clone, PartialEq, Eq, Debug)]
pub struct BackendResponse {
    /// Number of input tokens after tokenization.
    pub input_length: u32,
    /// The tokenized input, when decoder input details were requested.
    pub prefill: Vec<PrefillToken>,
    /// Every generated token in order.
    pub tokens: Vec<Token>,
    /// The most likely alternatives at each position, when requested.
    pub top_tokens: Vec<Vec<Token>>,
    /// The finished text.
    pub generated_text: FinalizedText,
    /// When the backend accepted the request (monotonic nanoseconds).
    pub queued: u64,
    /// When inference started (monotonic nanoseconds).
    pub started: u64,
}

/// A branch's event sequence is well formed when every prefill precedes
/// every token, the terminal is the last element, and there is exactly one
/// terminal.
pub open spec fn wf_branch_events(s: Seq<StreamEvent>) -> bool {
    &&& forall|i: int, j: int|
        0 <= i < j < s.len() && (#[trigger] s[j]) is Prefill ==> (#[trigger] s[i]) is Prefill
    &&& forall|i: int| 0 <= i < s.len() && (#[trigger] s[i]).spec_is_terminal() ==> i == s.len() - 1
    &&& s.len() > 0 ==> s[s.len() - 1].spec_is_terminal()
}

/// Law: a nonempty well-formed branch sequence ends in its terminal event
/// and holds no other terminal.
pub proof fn lemma_wf_branch_single_terminal(s: Seq<StreamEvent>)
    requires
        wf_branch_events(s),
        s.len() > 0,
    ensures
        s[s.len() - 1].spec_is_terminal(),
        forall|i: int| 0 <= i < s.len() - 1 ==> !(#[trigger] s[i]).spec_is_terminal(),
{
}

} // verus!
