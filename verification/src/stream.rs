//! The streaming pipeline of one generation request: a state machine that
//! turns the backend's events into client-facing stream items.
//!
//! The machine enforces the stream's lifecycle: prefill events are absorbed,
//! token events are forwarded with a running index, the terminal event
//! carries the finished text (with the prompt prepended when asked for) and
//! the optional details, and a stream that dries up without a terminal event
//! is reported as an incomplete generation, never as a truncated success.

use vstd::prelude::*;
use crate::errors::InferError;
use crate::events::FinishReason;
use crate::events::StreamEvent;
use crate::events::Token;
use crate::request::GenerateRequest;
use crate::request::spec_return_full_text;
use crate::request::spec_stream_validation;

verus! {

/// Details attached to the terminal item of a stream, when requested.
#[derive(Clone, Copy, PartialEq, Eq, Structural, Debug)]
pub struct StreamDetails {
    pub finish_reason: FinishReason,
    pub generated_tokens: u32,
    pub seed: Option<u64>,
    pub input_length: u32,
}

/// One client-facing stream response. A terminal response carries the
/// finished text; intermediate ones do not.
#[derive(Clone, PartialEq, Eq, Debug)]
pub struct StreamResponse {
    pub index: u32,
    pub token: Token,
    pub top_tokens: Vec<Token>,
    pub generated_text: Option<String>,
    pub details: Option<StreamDetails>,
}

/// One item of the output stream: a response or an error event. Errors are
/// delivered in-stream so that output already sent is preserved.
#[derive(Clone, PartialEq, Eq, Debug)]
pub enum StreamItem {
    Response(StreamResponse),
    Error(InferError),
}

/// Whether an item ends its stream: an error, or the response that carries
/// the finished text.
pub open spec fn spec_item_is_terminal(it: StreamItem) -> bool {
    match it {
        StreamItem::Error(_) => true,
        StreamItem::Response(r) => r.generated_text is Some,
    }
}

/// The finished text of one stream: the prompt is prepended exactly when
/// the request asked for the full text back.
pub open spec fn spec_output_text(add_prompt: Option<String>, text: Seq<char>) -> Seq<char> {
    match add_prompt {
        Some(p) => p@ + text,
        None => text,
    }
}

/// Whether a backend item ends the stream normally.
pub open spec fn spec_event_ends(item: Result<StreamEvent, InferError>) -> bool {
    match item {
        Ok(e) => e is End,
        Err(_) => false,
    }
}

/// Whether a backend item ends the stream with an error.
pub open spec fn spec_event_errs(item: Result<StreamEvent, InferError>) -> bool {
    item is Err
}

/// The streaming pipeline of one request.
#[derive(Debug)]
pub struct StreamState {
    /// Events seen so far; forwarded responses carry this running index.
    pub index: u32,
    /// A terminal `End` event has been forwarded.
    pub end_reached: bool,
    /// An error has been forwarded.
    pub errored: bool,
    /// The prompt, kept to prepend to the finished text when asked for.
    pub add_prompt: Option<String>,
    /// Whether the terminal response carries details.
    pub details: bool,
    /// Number of input tokens, reported in the details.
    pub input_length: u32,
}

impl StreamState {
    /// A halted stream accepts no further events.
    pub open spec fn halted(self) -> bool {
        self.end_reached || self.errored
    }

    /// A halted stream accepts no further events.
    pub fn is_halted(&self) -> (r: bool)
        ensures
            r == self.halted(),
    {
        self.end_reached || self.errored
    }

    /// Open the stream for a validated request. Fails, before the backend
    /// is contacted, exactly when the request shape cannot be delivered
    /// over a stream.
    pub fn begin(req: &GenerateRequest, input_length: u32) -> (r: Result<StreamState, InferError>)
        ensures
            r is Ok <==> spec_stream_validation(req.parameters) is None,
            r matches Err(e) ==> (spec_stream_validation(req.parameters) matches Some(v) && e
                == InferError::ValidationError(v)),
            r matches Ok(st) ==> (st.index == 0 && !st.end_reached && !st.errored && st.details
                == req.parameters.details && st.input_length == input_length && st.add_prompt == (
            if spec_return_full_text(req.parameters) {
                Some(req.inputs)
            } else {
                None::<String>
            })),
    {
        let validated = req.parameters.validate_streamable();
        match validated {
            Err(e) => Err(e),
            Ok(()) => {
                let add_prompt = match req.parameters.return_full_text {
                    Some(true) => Some(req.inputs.clone()),
                    _ => None,
                };
                Ok(
                    StreamState {
                        index: 0,
                        end_reached: false,
                        errored: false,
                        add_prompt,
                        details: req.parameters.details,
                        input_length,
                    },
                )
            },
        }
    }

    /// Feed one backend item through the pipeline. Prefill events are
    /// absorbed; token events are forwarded; the terminal event or an error
    /// halts the stream. The item returned is terminal exactly when the
    /// stream halts with it.
    pub fn push(&mut self, item: Result<StreamEvent, InferError>) -> (out: Option<StreamItem>)
        requires
            !old(self).halted(),
            old(self).index < u32::MAX,
        ensures
            final(self).add_prompt == old(self).add_prompt,
            final(self).details == old(self).details,
            final(self).input_length == old(self).input_length,
            final(self).index == old(self).index + 1,
            final(self).end_reached == spec_event_ends(item),
            final(self).errored == spec_event_errs(item),
            item matches Ok(StreamEvent::Prefill(_)) ==> out is None,
            item matches Ok(StreamEvent::Token { token, top_tokens }) ==> (out matches Some(
                StreamItem::Response(r),
            ) && r.index == old(self).index + 1 && r.token == token && r.top_tokens == top_tokens
                && r.generated_text is None && r.details is None),
            item matches Ok(
                StreamEvent::End { token, generated_text, queued, started, top_tokens },
            ) ==> (out matches Some(StreamItem::Response(r)) && r.index == old(self).index + 1
                && r.token == token && r.top_tokens == top_tokens && (r.generated_text matches Some(
                g,
            ) && g@ == spec_output_text(old(self).add_prompt, generated_text.text@)) && r.details
                == (if old(self).details {
                Some(
                    StreamDetails {
                        finish_reason: generated_text.finish_reason,
                        generated_tokens: generated_text.generated_tokens,
                        seed: generated_text.seed,
                        input_length: old(self).input_length,
                    },
                )
            } else {
                None::<StreamDetails>
            })),
            item matches Err(e) ==> out == Some(StreamItem::Error(e)),
            out matches Some(it) ==> (spec_item_is_terminal(it) <==> final(self).halted()),
            out is None ==> !final(self).halted(),
    {
        self.index = self.index + 1;
        match item {
            Ok(StreamEvent::Prefill(_)) => None,
            Ok(StreamEvent::Token { token, top_tokens }) => Some(
                StreamItem::Response(
                    StreamResponse {
                        index: self.index,
                        token,
                        top_tokens,
                        generated_text: None,
                        details: None,
                    },
                ),
            ),
            Ok(StreamEvent::End { token, generated_text, queued: _, started: _, top_tokens }) => {
                self.end_reached = true;
                let full_text = match &self.add_prompt {
                    Some(p) => p.clone().concat(generated_text.text.as_str()),
                    None => generated_text.text,
                };
                let details = if self.details {
                    Some(
                        StreamDetails {
                            finish_reason: generated_text.finish_reason,
                            generated_tokens: generated_text.generated_tokens,
                            seed: generated_text.seed,
                            input_length: self.input_length,
                        },
                    )
                } else {
                    None
                };
                Some(
                    StreamItem::Response(
                        StreamResponse {
                            index: self.index,
                            token,
                            top_tokens,
                            generated_text: Some(full_text),
                            details,
                        },
                    ),
                )
            },
            Err(e) => {
                self.errored = true;
                Some(StreamItem::Error(e))
            },
        }
    }

    /// After the backend stream dried up: report an incomplete generation
    /// exactly when no terminal event and no error was forwarded.
    pub fn finish(&self) -> (r: Option<InferError>)
        ensures
            r == (if !self.end_reached && !self.errored {
                Some(InferError::IncompleteGenerationStream)
            } else {
                None::<InferError>
            }),
    {
        if !self.end_reached && !self.errored {
            Some(InferError::IncompleteGenerationStream)
        } else {
            None
        }
    }
}

/// How many items the pipeline forwards for a backend stream: one per
/// token, and one terminal — the finished response, the forwarded error,
/// or the incomplete-generation report when the stream dries up without
/// either. Prefill events forward nothing, and nothing follows the
/// terminal.
pub open spec fn spec_stream_out_count(items: Seq<Result<StreamEvent, InferError>>) -> int
    decreases items.len(),
{
    if items.len() == 0 {
        1
    } else {
        match items[0] {
            Ok(StreamEvent::Prefill(_)) => spec_stream_out_count(items.skip(1)),
            Ok(StreamEvent::Token { .. }) => 1 + spec_stream_out_count(items.skip(1)),
            Ok(StreamEvent::End { .. }) => 1,
            Err(_) => 1,
        }
    }
}

/// The position of the first terminal backend item, or the length when
/// the stream dries up without one.
pub open spec fn spec_halt_point(items: Seq<Result<StreamEvent, InferError>>) -> int
    decreases items.len(),
{
    if items.len() == 0 {
        0
    } else if spec_event_ends(items[0]) || spec_event_errs(items[0]) {
        0
    } else {
        1 + spec_halt_point(items.skip(1))
    }
}

/// The responses forwarded for the tokens before the first terminal
/// backend item: one response per token event, in arrival order, carrying
/// a running index that counts every event from `base`; prefill events
/// forward nothing, and the terminal item cuts the tail off.
pub open spec fn spec_token_responses(
    items: Seq<Result<StreamEvent, InferError>>,
    base: int,
) -> Seq<StreamItem>
    decreases items.len(),
{
    if items.len() == 0 {
        Seq::empty()
    } else {
        match items[0] {
            Ok(StreamEvent::Prefill(_)) => spec_token_responses(items.skip(1), base + 1),
            Ok(StreamEvent::Token { token, top_tokens }) => seq![
                StreamItem::Response(
                    StreamResponse {
                        index: (base + 1) as u32,
                        token,
                        top_tokens,
                        generated_text: None,
                        details: None,
                    },
                ),
            ] + spec_token_responses(items.skip(1), base + 1),
            Ok(StreamEvent::End { .. }) => Seq::empty(),
            Err(_) => Seq::empty(),
        }
    }
}

/// Run a whole backend stream through the pipeline and collect the output.
///
/// Laws carried by the contract: the output always ends in exactly one
/// terminal item — the finished response, a forwarded error, or the
/// incomplete-generation report — with no terminal item anywhere else;
/// forwarded responses carry strictly increasing indices; every token
/// before the first terminal backend item is forwarded, and that item
/// decides the terminal: an `End` yields the finished text (prompt
/// prepended when asked for), an error is forwarded as it is, and a
/// backend stream severed without either yields the incomplete-generation
/// error, never a truncated success.
pub fn collect_stream(st0: StreamState, items: Vec<Result<StreamEvent, InferError>>) -> (out: Vec<
    StreamItem,
>)
    requires
        !st0.halted(),
        st0.index + items@.len() <= u32::MAX,
    ensures
        out@.len() == spec_stream_out_count(items@),
        out@.len() > 0,
        forall|k: int|
            0 <= k < out@.len() ==> (spec_item_is_terminal(#[trigger] out@[k]) <==> k == out@.len()
                - 1),
        (forall|j: int|
            0 <= j < items@.len() ==> !spec_event_ends(#[trigger] items@[j]) && !spec_event_errs(
                items@[j],
            )) ==> out@[out@.len() - 1] == StreamItem::Error(InferError::IncompleteGenerationStream),
        out@.subrange(0, out@.len() - 1) == spec_token_responses(items@, st0.index as int),
        spec_halt_point(items@) < items@.len() ==> (items@[spec_halt_point(items@)] matches Ok(
            StreamEvent::End { token, generated_text, top_tokens, .. },
        ) ==> (out@[out@.len() - 1] matches StreamItem::Response(r) && r.index == st0.index
            + spec_halt_point(items@) + 1 && r.token == token && r.top_tokens == top_tokens
            && r.details == (if st0.details {
            Some(
                StreamDetails {
                    finish_reason: generated_text.finish_reason,
                    generated_tokens: generated_text.generated_tokens,
                    seed: generated_text.seed,
                    input_length: st0.input_length,
                },
            )
        } else {
            None::<StreamDetails>
        }) && (r.generated_text matches Some(g) && g@ == spec_output_text(
            st0.add_prompt,
            generated_text.text@,
        )))),
        spec_halt_point(items@) < items@.len() ==> (items@[spec_halt_point(items@)] matches Err(e)
            ==> out@[out@.len() - 1] == StreamItem::Error(e)),
        forall|k1: int, k2: int|
            0 <= k1 < k2 < out@.len() && (#[trigger] out@[k1]) is Response && (#[trigger] out@[k2])
                is Response ==> out@[k1]->Response_0.index < out@[k2]->Response_0.index,
{
    let ghost items0 = items@;
    let mut remaining = items;
    let mut st = st0;
    let mut out: Vec<StreamItem> = Vec::new();
    let ghost mut i: int = 0;
    while remaining.len() != 0 && !st.is_halted()
        invariant
            0 <= i <= items0.len(),
            remaining@ == items0.subrange(i, items0.len() as int),
            st.index == st0.index + i,
            st.add_prompt == st0.add_prompt,
            st.details == st0.details,
            st.input_length == st0.input_length,
            st.end_reached == (exists|j: int| 0 <= j < i && spec_event_ends(#[trigger] items0[j])),
            st.errored == (exists|j: int| 0 <= j < i && spec_event_errs(#[trigger] items0[j])),
            st0.index + items0.len() <= u32::MAX,
            spec_stream_out_count(items0) == out@.len() + (if st.halted() {
                0int
            } else {
                spec_stream_out_count(remaining@)
            }),
            !st.halted() ==> spec_halt_point(items0) == i + spec_halt_point(remaining@),
            st.halted() ==> spec_halt_point(items0) < items0.len(),
            !st.halted() ==> out@ + spec_token_responses(remaining@, st.index as int)
                == spec_token_responses(items0, st0.index as int),
            st.halted() ==> out@.subrange(0, out@.len() - 1) == spec_token_responses(
                items0,
                st0.index as int,
            ),
            st.halted() ==> (items0[spec_halt_point(items0)] matches Ok(
                StreamEvent::End { token, generated_text, top_tokens, .. },
            ) ==> (out@.len() > 0 && (out@[out@.len() - 1] matches StreamItem::Response(r)
                && r.index == st0.index + spec_halt_point(items0) + 1 && r.token == token
                && r.top_tokens == top_tokens && r.details == (if st0.details {
                Some(
                    StreamDetails {
                        finish_reason: generated_text.finish_reason,
                        generated_tokens: generated_text.generated_tokens,
                        seed: generated_text.seed,
                        input_length: st0.input_length,
                    },
                )
            } else {
                None::<StreamDetails>
            }) && (r.generated_text matches Some(g) && g@ == spec_output_text(
                st0.add_prompt,
                generated_text.text@,
            ))))),
            st.halted() ==> (items0[spec_halt_point(items0)] matches Err(e) ==> (out@.len() > 0
                && out@[out@.len() - 1] == StreamItem::Error(e))),
            forall|k: int|
                0 <= k < out@.len() ==> (spec_item_is_terminal(#[trigger] out@[k]) <==> (st.halted()
                    && k == out@.len() - 1)),
            st.halted() ==> out@.len() > 0,
            forall|k: int|
                0 <= k < out@.len() && (#[trigger] out@[k]) is Response ==> out@[k]->Response_0.index
                    <= st.index,
            forall|k1: int, k2: int|
                0 <= k1 < k2 < out@.len() && (#[trigger] out@[k1]) is Response && (
                #[trigger] out@[k2]) is Response ==> out@[k1]->Response_0.index
                    < out@[k2]->Response_0.index,
        decreases items0.len() - i,
    {
        proof {
            assert(remaining@[0] == items0[i]);
            assert(remaining@.remove(0) =~= items0.subrange(i + 1, items0.len() as int));
        }
        let ghost out_pre = out@;
        let ghost rem_pre = remaining@;
        let ghost idx_pre = st.index as int;
        let item = remaining.remove(0);
        let o = st.push(item);
        match o {
            Some(x) => {
                out.push(x);
            },
            None => {},
        }
        proof {
            if !st.halted() {
                assert(out@ + spec_token_responses(remaining@, st.index as int)
                    =~= spec_token_responses(items0, st0.index as int));
            } else {
                assert(spec_token_responses(rem_pre, idx_pre) =~= Seq::<StreamItem>::empty());
                assert(out@.subrange(0, out@.len() - 1) =~= out_pre);
            }
            i = i + 1;
        }
    }
    let ghost out_loop = out@;
    match st.finish() {
        Some(e) => {
            out.push(StreamItem::Error(e));
            proof {
                assert(spec_token_responses(remaining@, st.index as int) =~= Seq::<
                    StreamItem,
                >::empty());
                assert(out@.subrange(0, out@.len() - 1) =~= out_loop);
            }
        },
        None => {},
    }
    out
}

} // verus!
