//! The restart state machine of a tool-call-capable chat completion.
//!
//! While a chat response streams, a provider-specific heuristic watches the
//! tokens and eventually decides whether the model is emitting a tool call
//! or plain text. Until the decision, tokens are buffered; a tool-call
//! decision flushes the buffer as tool-call deltas; a plain-text decision
//! while tools are enabled discards the stream and asks the caller to
//! restart generation once with tools disabled, so the client receives a
//! clean text completion instead of a malformed tool-call fragment. The
//! machine never asks for a second restart: after the restart tools are
//! disabled, and a disabled machine forwards text only. The heuristic
//! itself is the provider's business and enters only as an input.

use vstd::prelude::*;
use crate::errors::InferError;
use crate::events::Token;
use crate::stream::StreamResponse;

verus! {

/// The provider heuristic's verdict on the stream so far.
#[derive(Clone, Copy, PartialEq, Eq, Structural, Debug)]
pub enum ToolHint {
    /// No decision yet: keep buffering.
    Undecided,
    /// The model is emitting a structured tool call.
    ToolCall,
    /// The model is emitting plain text.
    PlainText,
}

/// Where the machine stands in its stream.
#[derive(Clone, Copy, PartialEq, Eq, Structural, Debug)]
pub enum ChatPhase {
    /// Tokens are buffered until the tool decision is made.
    Buffering,
    /// The tool decision was made: tokens flow as tool-call deltas.
    ForwardingTool,
    /// Tokens flow as plain text deltas.
    ForwardingText,
    /// The terminal event was seen; no further pushes are accepted.
    Done,
}

/// The decision-relevant core of the machine.
#[derive(Clone, Copy, PartialEq, Eq, Structural, Debug)]
pub struct ChatCore {
    /// Tool directives are active for the current generation pass.
    pub tools_enabled: bool,
    /// The single allowed restart has been used.
    pub restarted: bool,
    pub phase: ChatPhase,
}

/// One client-facing chat stream element.
#[derive(Clone, PartialEq, Eq, Debug)]
pub enum ChatItem {
    /// A plain text delta.
    TextDelta(Token),
    /// A tool-call delta.
    ToolDelta(Token),
    /// The terminal element, carrying the finished response.
    Final(StreamResponse),
}

/// What one push tells the caller to do.
#[derive(Clone, PartialEq, Eq, Debug)]
pub enum PushOutcome {
    /// Emit these elements downstream, in order.
    Emit(Vec<ChatItem>),
    /// Discard the in-flight stream, disable tool directives, and start one
    /// fresh generation for the same prompt.
    NoTool,
}

/// A push asks for the restart exactly when tools are enabled, the machine
/// is still undecided, and the heuristic resolved to plain text.
pub open spec fn spec_signals_restart(c: ChatCore, hint: ToolHint) -> bool {
    c.tools_enabled && c.phase is Buffering && hint is PlainText
}

/// The core after one accepted (non-restarting) push.
pub open spec fn spec_advance_core(c: ChatCore, hint: ToolHint, terminal: bool) -> ChatCore {
    if terminal {
        ChatCore { phase: ChatPhase::Done, ..c }
    } else if !c.tools_enabled {
        ChatCore { phase: ChatPhase::ForwardingText, ..c }
    } else {
        match c.phase {
            ChatPhase::Buffering => if hint is ToolCall {
                ChatCore { phase: ChatPhase::ForwardingTool, ..c }
            } else {
                c
            },
            _ => c,
        }
    }
}

/// The core after the restart: tools disabled, the one restart spent, a
/// fresh undecided stream.
pub open spec fn spec_restart_core(c: ChatCore) -> ChatCore {
    ChatCore { tools_enabled: false, restarted: true, phase: ChatPhase::Buffering }
}

/// The heuristic verdict the machine actually consumes: an undecided
/// verdict arriving with the terminal response of a tools-enabled, still
/// undecided stream means no parseable tool call came, so it resolves to
/// plain text; every other verdict stands as given.
pub open spec fn spec_effective_hint(c: ChatCore, resp: StreamResponse, hint: ToolHint) -> ToolHint {
    if c.tools_enabled && c.phase is Buffering && resp.generated_text is Some && hint
        is Undecided {
        ToolHint::PlainText
    } else {
        hint
    }
}

/// What one accepted (non-restarting) push emits: the terminal response
/// flushes the buffer as tool deltas and appends the finished response; a
/// token streams as a text delta with tools disabled, is buffered while
/// the decision is pending, and flushes the buffer as tool deltas when
/// the decision falls on a tool call.
pub open spec fn spec_push_emits(
    c: ChatCore,
    buffer: Seq<Token>,
    resp: StreamResponse,
    hint: ToolHint,
) -> Seq<ChatItem> {
    if resp.generated_text is Some {
        buffer.map_values(|t: Token| ChatItem::ToolDelta(t)).push(ChatItem::Final(resp))
    } else if !c.tools_enabled {
        seq![ChatItem::TextDelta(resp.token)]
    } else {
        match c.phase {
            ChatPhase::Buffering => if hint is ToolCall {
                buffer.map_values(|t: Token| ChatItem::ToolDelta(t)).push(
                    ChatItem::ToolDelta(resp.token),
                )
            } else {
                Seq::<ChatItem>::empty()
            },
            _ => seq![ChatItem::ToolDelta(resp.token)],
        }
    }
}

/// The buffer after one accepted (non-restarting) push: emptied by every
/// flush, grown by an undecided token, untouched otherwise.
pub open spec fn spec_push_buffer(
    c: ChatCore,
    buffer: Seq<Token>,
    resp: StreamResponse,
    hint: ToolHint,
) -> Seq<Token> {
    if resp.generated_text is Some {
        Seq::<Token>::empty()
    } else if !c.tools_enabled {
        buffer
    } else {
        match c.phase {
            ChatPhase::Buffering => if hint is ToolCall {
                Seq::<Token>::empty()
            } else {
                buffer.push(resp.token)
            },
            _ => buffer,
        }
    }
}

/// One whole pass of a chat stream through the machine: what it emits, the
/// state it leaves behind, and whether it asked for the restart. The pass
/// consumes the responses in order, stops at the machine's end, and stops
/// asking for the restart the moment the resolved verdict is plain text
/// while tools are enabled and the stream undecided.
pub open spec fn spec_chat_pass(
    c: ChatCore,
    buffer: Seq<Token>,
    inputs: Seq<(StreamResponse, ToolHint)>,
) -> (Seq<ChatItem>, ChatCore, Seq<Token>, bool)
    decreases inputs.len(),
{
    if inputs.len() == 0 {
        (Seq::<ChatItem>::empty(), c, buffer, false)
    } else if c.phase is Done {
        (Seq::<ChatItem>::empty(), c, buffer, false)
    } else {
        let resp = inputs[0].0;
        let hint = spec_effective_hint(c, resp, inputs[0].1);
        if spec_signals_restart(c, hint) {
            (Seq::<ChatItem>::empty(), c, buffer, true)
        } else {
            let emitted = spec_push_emits(c, buffer, resp, hint);
            let rest = spec_chat_pass(
                spec_advance_core(c, hint, resp.generated_text is Some),
                spec_push_buffer(c, buffer, resp, hint),
                inputs.skip(1),
            );
            (emitted + rest.0, rest.1, rest.2, rest.3)
        }
    }
}

/// The full wire output of a chat-streaming session: the first pass's
/// emissions; then, exactly when that pass asked for the single restart,
/// the second pass's emissions on the restarted machine; then the
/// completion sentinel.
pub open spec fn spec_chat_session(
    m: ChatMachine,
    first: Seq<(StreamResponse, ToolHint)>,
    second: Seq<(StreamResponse, ToolHint)>,
) -> Seq<ChatWireItem> {
    let p1 = spec_chat_pass(m.core, m.buffer@, first);
    let items = if p1.3 {
        p1.0 + spec_chat_pass(spec_restart_core(m.core), Seq::<Token>::empty(), second).0
    } else {
        p1.0
    };
    items.map_values(|it: ChatItem| ChatWireItem::Item(it)).push(ChatWireItem::Done)
}

/// How many restarts a whole session performs: the machine consumes the
/// hints in order; a restart consumes its input and continues, with tools
/// disabled, on the fresh stream's inputs. Inputs after the terminal are
/// not accepted and count for nothing.
pub open spec fn spec_session_restarts(c: ChatCore, inputs: Seq<(ToolHint, bool)>) -> nat
    decreases inputs.len(),
{
    if inputs.len() == 0 {
        0
    } else if c.phase is Done {
        spec_session_restarts(c, inputs.skip(1))
    } else if spec_signals_restart(c, inputs[0].0) {
        1 + spec_session_restarts(spec_restart_core(c), inputs.skip(1))
    } else {
        spec_session_restarts(spec_advance_core(c, inputs[0].0, inputs[0].1), inputs.skip(1))
    }
}

/// Law: a machine with tools disabled never restarts.
pub proof fn lemma_no_tools_no_restart(c: ChatCore, inputs: Seq<(ToolHint, bool)>)
    requires
        !c.tools_enabled,
    ensures
        spec_session_restarts(c, inputs) == 0,
    decreases inputs.len(),
{
    if inputs.len() > 0 {
        if c.phase is Done {
            lemma_no_tools_no_restart(c, inputs.skip(1));
        } else {
            lemma_no_tools_no_restart(spec_advance_core(c, inputs[0].0, inputs[0].1), inputs.skip(1));
        }
    }
}

/// Law: no session restarts more than once, whatever the heuristic says.
pub proof fn lemma_at_most_one_restart(c: ChatCore, inputs: Seq<(ToolHint, bool)>)
    ensures
        spec_session_restarts(c, inputs) <= 1,
    decreases inputs.len(),
{
    if inputs.len() > 0 {
        if c.phase is Done {
            lemma_at_most_one_restart(c, inputs.skip(1));
        } else if spec_signals_restart(c, inputs[0].0) {
            lemma_no_tools_no_restart(spec_restart_core(c), inputs.skip(1));
        } else {
            lemma_at_most_one_restart(spec_advance_core(c, inputs[0].0, inputs[0].1), inputs.skip(1));
        }
    }
}

/// Law: a first pass that resolves to a structured tool call triggers zero
/// restarts: if the heuristic never says plain text, no restart happens.
pub proof fn lemma_tool_call_no_restart(c: ChatCore, inputs: Seq<(ToolHint, bool)>)
    requires
        forall|j: int| 0 <= j < inputs.len() ==> !((#[trigger] inputs[j]).0 is PlainText),
    ensures
        spec_session_restarts(c, inputs) == 0,
    decreases inputs.len(),
{
    if inputs.len() > 0 {
        assert(!(inputs[0].0 is PlainText));
        assert forall|j: int|
            0 <= j < inputs.skip(1).len() implies !((#[trigger] inputs.skip(1)[j]).0
            is PlainText) by {
            assert(inputs.skip(1)[j] == inputs[j + 1]);
        }
        if c.phase is Done {
            lemma_tool_call_no_restart(c, inputs.skip(1));
        } else {
            lemma_tool_call_no_restart(spec_advance_core(c, inputs[0].0, inputs[0].1), inputs.skip(1));
        }
    }
}

/// Law: a first pass that resolves to plain text triggers exactly one
/// restart, after which the second pass has tools disabled: with tools
/// enabled and the stream undecided, if the heuristic stays undecided
/// until it resolves to plain text before the stream's end, the session
/// restarts exactly once.
pub proof fn lemma_plain_text_exactly_one_restart(
    c: ChatCore,
    inputs: Seq<(ToolHint, bool)>,
    k: int,
)
    requires
        c.tools_enabled,
        c.phase is Buffering,
        0 <= k < inputs.len(),
        inputs[k].0 is PlainText,
        forall|j: int| 0 <= j < k ==> ((#[trigger] inputs[j]).0 is Undecided && !inputs[j].1),
    ensures
        spec_session_restarts(c, inputs) == 1,
    decreases k,
{
    if k == 0 {
        lemma_no_tools_no_restart(spec_restart_core(c), inputs.skip(1));
    } else {
        assert(inputs[0].0 is Undecided && !inputs[0].1);
        assert(spec_advance_core(c, inputs[0].0, inputs[0].1) == c);
        assert forall|j: int|
            0 <= j < k - 1 implies ((#[trigger] inputs.skip(1)[j]).0 is Undecided && !inputs.skip(
            1,
        )[j].1) by {
            assert(inputs.skip(1)[j] == inputs[j + 1]);
        }
        assert(inputs.skip(1)[k - 1] == inputs[k]);
        lemma_plain_text_exactly_one_restart(c, inputs.skip(1), k - 1);
    }
}

/// The restart state machine of one chat request.
pub struct ChatMachine {
    /// The decision-relevant state.
    pub core: ChatCore,
    /// The deployment fingerprint reported to the client; kept across the
    /// restart.
    pub fingerprint: String,
    /// The model id reported to the client; kept across the restart.
    pub model_id: String,
    /// Whether the client asked for log probabilities; kept across the
    /// restart.
    pub logprobs: bool,
    /// Tokens seen before the tool decision.
    pub buffer: Vec<Token>,
}

impl ChatMachine {
    /// The restart is only ever spent by disabling tools, and tokens are
    /// only buffered while the decision is pending.
    pub open spec fn wf(self) -> bool {
        &&& (self.core.restarted ==> !self.core.tools_enabled)
        &&& (self.buffer@.len() > 0 ==> (self.core.tools_enabled && self.core.phase
            is Buffering))
    }

    /// A fresh machine for one chat request.
    pub fn new(using_tools: bool, fingerprint: String, model_id: String, logprobs: bool) -> (m:
        ChatMachine)
        ensures
            m.core == (ChatCore {
                tools_enabled: using_tools,
                restarted: false,
                phase: ChatPhase::Buffering,
            }),
            m.fingerprint == fingerprint,
            m.model_id == model_id,
            m.logprobs == logprobs,
            m.buffer@.len() == 0,
            m.wf(),
    {
        ChatMachine {
            core: ChatCore {
                tools_enabled: using_tools,
                restarted: false,
                phase: ChatPhase::Buffering,
            },
            fingerprint,
            model_id,
            logprobs,
            buffer: Vec::new(),
        }
    }

    /// Feed one stream response through the machine, together with the
    /// heuristic's current verdict. Asks for the restart exactly when
    /// tools are enabled, the stream is undecided, and the verdict is
    /// plain text; a machine with tools disabled never asks. The heuristic
    /// must have resolved by the time the terminal response arrives.
    pub fn push(&mut self, resp: StreamResponse, hint: ToolHint) -> (r: PushOutcome)
        requires
            old(self).wf(),
            !(old(self).core.phase is Done),
            (old(self).core.tools_enabled && old(self).core.phase is Buffering
                && resp.generated_text is Some) ==> !(hint is Undecided),
        ensures
            final(self).wf(),
            final(self).fingerprint == old(self).fingerprint,
            final(self).model_id == old(self).model_id,
            final(self).logprobs == old(self).logprobs,
            final(self).core.tools_enabled == old(self).core.tools_enabled,
            final(self).core.restarted == old(self).core.restarted,
            r is NoTool <==> spec_signals_restart(old(self).core, hint),
            !old(self).core.tools_enabled ==> !(r is NoTool),
            r is NoTool ==> *final(self) == *old(self),
            !(r is NoTool) ==> final(self).core == spec_advance_core(
                old(self).core,
                hint,
                resp.generated_text is Some,
            ),
            !(r is NoTool) ==> (r matches PushOutcome::Emit(items) && items@ == spec_push_emits(
                old(self).core,
                old(self).buffer@,
                resp,
                hint,
            ) && final(self).buffer@ == spec_push_buffer(
                old(self).core,
                old(self).buffer@,
                resp,
                hint,
            )),
            (!(r is NoTool) && resp.generated_text is Some) ==> (r matches PushOutcome::Emit(items)
                && items@ == old(self).buffer@.map_values(
                |t: Token| ChatItem::ToolDelta(t),
            ).push(ChatItem::Final(resp)) && final(self).buffer@.len() == 0),
            (resp.generated_text is None && old(self).core.tools_enabled && old(self).core.phase
                is Buffering && hint is Undecided) ==> (r matches PushOutcome::Emit(items)
                && items@.len() == 0 && final(self).buffer@ == old(self).buffer@.push(resp.token)),
            (resp.generated_text is None && old(self).core.tools_enabled && old(self).core.phase
                is Buffering && hint is ToolCall) ==> (r matches PushOutcome::Emit(items) && items@
                == old(self).buffer@.map_values(|t: Token| ChatItem::ToolDelta(t)).push(
                ChatItem::ToolDelta(resp.token),
            ) && final(self).buffer@.len() == 0),
            (resp.generated_text is None && old(self).core.tools_enabled && old(self).core.phase
                is ForwardingTool) ==> (r matches PushOutcome::Emit(items) && items@ == seq![
                ChatItem::ToolDelta(resp.token),
            ] && final(self).buffer@ == old(self).buffer@),
            (resp.generated_text is None && !old(self).core.tools_enabled) ==> (r matches
                PushOutcome::Emit(items) && items@ == seq![ChatItem::TextDelta(resp.token)]
                && final(self).buffer@ == old(self).buffer@),
    {
        let terminal = resp.generated_text.is_some();
        if self.core.tools_enabled && matches!(self.core.phase, ChatPhase::Buffering) && matches!(
            hint,
            ToolHint::PlainText,
        ) {
            return PushOutcome::NoTool;
        }
        if terminal {
            let mut items = flush_tool_deltas(take_all_tokens(&mut self.buffer));
            items.push(ChatItem::Final(resp));
            self.core.phase = ChatPhase::Done;
            return PushOutcome::Emit(items);
        }
        if !self.core.tools_enabled {
            self.core.phase = ChatPhase::ForwardingText;
            let mut items: Vec<ChatItem> = Vec::new();
            items.push(ChatItem::TextDelta(resp.token));
            return PushOutcome::Emit(items);
        }
        match self.core.phase {
            ChatPhase::Buffering => {
                if matches!(hint, ToolHint::ToolCall) {
                    self.core.phase = ChatPhase::ForwardingTool;
                    let mut items = flush_tool_deltas(take_all_tokens(&mut self.buffer));
                    items.push(ChatItem::ToolDelta(resp.token));
                    PushOutcome::Emit(items)
                } else {
                    self.buffer.push(resp.token);
                    PushOutcome::Emit(Vec::new())
                }
            },
            _ => {
                let mut items: Vec<ChatItem> = Vec::new();
                items.push(ChatItem::ToolDelta(resp.token));
                PushOutcome::Emit(items)
            },
        }
    }

    /// Spend the single restart: discard the buffered tokens, disable tool
    /// directives, and await the fresh stream, keeping the fingerprint,
    /// model id and logprob flag.
    pub fn restart(&mut self)
        requires
            old(self).wf(),
            old(self).core.tools_enabled,
        ensures
            final(self).wf(),
            final(self).core == spec_restart_core(old(self).core),
            final(self).fingerprint == old(self).fingerprint,
            final(self).model_id == old(self).model_id,
            final(self).logprobs == old(self).logprobs,
            final(self).buffer@.len() == 0,
    {
        self.core = ChatCore {
            tools_enabled: false,
            restarted: true,
            phase: ChatPhase::Buffering,
        };
        self.buffer = Vec::new();
    }
}

/// Take the buffered tokens out, leaving the buffer empty.
fn take_all_tokens(buffer: &mut Vec<Token>) -> (taken: Vec<Token>)
    ensures
        taken@ == old(buffer)@,
        final(buffer)@.len() == 0,
{
    let mut taken: Vec<Token> = Vec::new();
    core::mem::swap(buffer, &mut taken);
    taken
}

/// One element of the chat wire stream: a chat item, or the completion
/// sentinel that ends the whole response.
#[derive(Clone, PartialEq, Eq, Debug)]
pub enum ChatWireItem {
    Item(ChatItem),
    Done,
}

/// Feed one pass's responses through the machine, appending the emitted
/// items to `out`; stops early when the machine asks for the restart or
/// reaches its end. Emits no sentinel. The items appended, the state left
/// behind and the restart signal are exactly those of [`spec_chat_pass`].
fn run_chat_pass(
    machine: &mut ChatMachine,
    items: Vec<(StreamResponse, ToolHint)>,
    out: &mut Vec<ChatWireItem>,
) -> (no_tool: bool)
    requires
        old(machine).wf(),
    ensures
        final(machine).wf(),
        final(machine).fingerprint == old(machine).fingerprint,
        final(machine).model_id == old(machine).model_id,
        final(machine).logprobs == old(machine).logprobs,
        final(machine).core.tools_enabled == old(machine).core.tools_enabled,
        no_tool ==> old(machine).core.tools_enabled,
        ({
            let p = spec_chat_pass(old(machine).core, old(machine).buffer@, items@);
            &&& no_tool == p.3
            &&& final(machine).core == p.1
            &&& final(machine).buffer@ == p.2
            &&& final(out)@ == old(out)@ + p.0.map_values(
                (|it: ChatItem| ChatWireItem::Item(it)),
            )
        }),
        forall|k: int| 0 <= k < old(out)@.len() ==> final(out)@[k] == old(out)@[k],
        forall|k: int|
            old(out)@.len() <= k < final(out)@.len() ==> !((#[trigger] final(out)@[k]) is Done),
{
    let ghost out0 = out@;
    let ghost c0 = old(machine).core;
    let ghost buf0 = old(machine).buffer@;
    let ghost items0 = items@;
    let ghost mut emitted: Seq<ChatItem> = Seq::empty();
    let mut remaining = items;
    while remaining.len() != 0
        invariant
            out0 == old(out)@,
            c0 == old(machine).core,
            buf0 == old(machine).buffer@,
            items0 == items@,
            machine.wf(),
            machine.fingerprint == old(machine).fingerprint,
            machine.model_id == old(machine).model_id,
            machine.logprobs == old(machine).logprobs,
            machine.core.tools_enabled == old(machine).core.tools_enabled,
            out@ == out0 + emitted.map_values((|it: ChatItem| ChatWireItem::Item(it))),
            ({
                let p0 = spec_chat_pass(c0, buf0, items0);
                let p = spec_chat_pass(machine.core, machine.buffer@, remaining@);
                &&& p0.0 == emitted + p.0
                &&& p0.1 == p.1
                &&& p0.2 == p.2
                &&& p0.3 == p.3
            }),
        decreases remaining@.len(),
    {
        let ghost rem_pre = remaining@;
        let ghost core_pre = machine.core;
        let ghost buffer_pre = machine.buffer@;
        proof {
            assert(rem_pre[0] == (rem_pre[0].0, rem_pre[0].1));
            assert(remaining@.remove(0) =~= rem_pre.skip(1));
        }
        let (resp, given_hint) = remaining.remove(0);
        if matches!(machine.core.phase, ChatPhase::Done) {
            // The pass is over; later responses are not accepted and
            // count for nothing.
            proof {
                assert(spec_chat_pass(machine.core, machine.buffer@, remaining@) == spec_chat_pass(
                    core_pre,
                    buffer_pre,
                    rem_pre,
                ));
            }
            continue ;
        }
        // The heuristic must have resolved by the terminal response; an
        // undecided verdict there means no parseable tool call came.
        let hint = if machine.core.tools_enabled && matches!(
            machine.core.phase,
            ChatPhase::Buffering,
        ) && resp.generated_text.is_some() && matches!(given_hint, ToolHint::Undecided) {
            ToolHint::PlainText
        } else {
            given_hint
        };
        proof {
            assert(hint == spec_effective_hint(core_pre, resp, rem_pre[0].1));
        }
        let ghost resp_g = resp;
        let ghost hint_g = hint;
        match machine.push(resp, hint) {
            PushOutcome::Emit(to_emit) => {
                let ghost step_items = spec_push_emits(core_pre, buffer_pre, resp_g, hint_g);
                let ghost emitted_pre = emitted;
                let mut queue = to_emit;
                let ghost mut j: int = 0;
                while queue.len() != 0
                    invariant
                        0 <= j <= step_items.len(),
                        queue@ == step_items.subrange(j, step_items.len() as int),
                        out@ == out0 + (emitted_pre + step_items.take(j)).map_values(
                            (|it: ChatItem| ChatWireItem::Item(it)),
                        ),
                    decreases queue@.len(),
                {
                    proof {
                        assert(queue@[0] == step_items[j]);
                        assert(queue@.remove(0) =~= step_items.subrange(
                            j + 1,
                            step_items.len() as int,
                        ));
                    }
                    let item = queue.remove(0);
                    out.push(ChatWireItem::Item(item));
                    proof {
                        assert(step_items.take(j + 1) =~= step_items.take(j).push(step_items[j]));
                        assert(out@ =~= out0 + (emitted_pre + step_items.take(j + 1)).map_values(
                            (|it: ChatItem| ChatWireItem::Item(it)),
                        ));
                        j = j + 1;
                    }
                }
                proof {
                    assert(step_items.take(step_items.len() as int) =~= step_items);
                    emitted = emitted_pre + step_items;
                    let p0 = spec_chat_pass(c0, buf0, items0);
                    let p_post = spec_chat_pass(machine.core, machine.buffer@, remaining@);
                    assert(spec_chat_pass(core_pre, buffer_pre, rem_pre).0 == step_items
                        + p_post.0);
                    assert(p0.0 =~= emitted + p_post.0);
                }
            },
            PushOutcome::NoTool => {
                proof {
                    let p0 = spec_chat_pass(c0, buf0, items0);
                    assert(spec_chat_pass(core_pre, buffer_pre, rem_pre).3);
                    assert(p0.0 =~= emitted);
                }
                return true;
            },
        }
    }
    proof {
        let p0 = spec_chat_pass(c0, buf0, items0);
        let p = spec_chat_pass(machine.core, machine.buffer@, remaining@);
        if remaining@.len() == 0 {
            assert(p.0 =~= Seq::<ChatItem>::empty());
        }
        assert(p0.0 =~= emitted + p.0);
        assert(p0.0 =~= emitted);
    }
    false
}

/// Run a whole chat-streaming session: the first pass with the machine as
/// it was made, and — only when the machine asks for the single tool-free
/// restart — the fresh stream as the second pass, then the completion
/// sentinel.
///
/// Laws carried by the contract: the output equals the session's
/// emissions as [`spec_chat_session`] folds them from the machine's own
/// push semantics — the first pass's items; the second pass's items
/// exactly when the first resolved to plain text with tools enabled; and
/// the sentinel as the last element, appearing exactly once, strictly
/// after every emitted item.
pub fn chat_session_collect(
    machine: ChatMachine,
    first: Vec<(StreamResponse, ToolHint)>,
    second: Vec<(StreamResponse, ToolHint)>,
) -> (out: Vec<ChatWireItem>)
    requires
        machine.wf(),
    ensures
        out@ == spec_chat_session(machine, first@, second@),
        out@.len() > 0,
        out@[out@.len() - 1] is Done,
        forall|k: int| 0 <= k < out@.len() - 1 ==> !((#[trigger] out@[k]) is Done),
{
    let ghost m0 = machine;
    let mut machine = machine;
    let mut out: Vec<ChatWireItem> = Vec::new();
    let no_tool = run_chat_pass(&mut machine, first, &mut out);
    let ghost p1 = spec_chat_pass(m0.core, m0.buffer@, first@);
    if no_tool {
        machine.restart();
        proof {
            assert(machine.buffer@ =~= Seq::<Token>::empty());
            assert(machine.core == spec_restart_core(m0.core));
        }
        let _ = run_chat_pass(&mut machine, second, &mut out);
        proof {
            let p2 = spec_chat_pass(spec_restart_core(m0.core), Seq::<Token>::empty(), second@);
            assert(out@ =~= (p1.0 + p2.0).map_values((|it: ChatItem| ChatWireItem::Item(it))));
        }
    } else {
        proof {
            assert(out@ =~= p1.0.map_values((|it: ChatItem| ChatWireItem::Item(it))));
        }
    }
    let ghost items_final = out@;
    out.push(ChatWireItem::Done);
    proof {
        assert(out@ =~= spec_chat_session(m0, first@, second@));
        assert forall|k: int| 0 <= k < out@.len() - 1 implies !((#[trigger] out@[k]) is Done) by {
            assert(out@[k] == items_final[k]);
        }
    }
    out
}

/// One structured tool call parsed out of a finished chat response.
#[derive(Clone, PartialEq, Eq, Debug)]
pub struct ToolCall {
    pub id: String,
    pub name: String,
    pub arguments: String,
}

/// What the provider-specific parser found in a finished chat response.
#[derive(Clone, PartialEq, Eq, Debug)]
pub enum ToolParse {
    /// The text holds no parseable tool call.
    NoToolCall,
    /// The structured tool calls found in the text.
    ToolCalls(Vec<ToolCall>),
}

/// What the caller must do with a finished non-streaming chat response.
#[derive(Clone, PartialEq, Eq, Debug)]
pub enum ChatAction {
    /// Return the generated text as a plain chat completion.
    ReturnText,
    /// Return these structured tool calls; no retry happens.
    ReturnToolCalls(Vec<ToolCall>),
    /// Silently re-issue the request once with tools disabled and return
    /// the plain-text result of the second pass instead.
    RestartWithoutTools,
}

/// Decide the follow-up of a finished non-streaming chat generation: with
/// tools disabled the text is returned as it is; with tools enabled, a
/// parseable tool call is returned structured and triggers no retry, while
/// unparseable text triggers the single tool-free retry.
pub fn chat_followup(using_tools: bool, parse: ToolParse) -> (a: ChatAction)
    ensures
        !using_tools ==> a == ChatAction::ReturnText,
        (using_tools && parse is NoToolCall) ==> a == ChatAction::RestartWithoutTools,
        parse matches ToolParse::ToolCalls(calls) ==> (using_tools ==> a
            == ChatAction::ReturnToolCalls(calls)),
        a is RestartWithoutTools <==> (using_tools && parse is NoToolCall),
{
    if !using_tools {
        ChatAction::ReturnText
    } else {
        match parse {
            ToolParse::NoToolCall => ChatAction::RestartWithoutTools,
            ToolParse::ToolCalls(calls) => ChatAction::ReturnToolCalls(calls),
        }
    }
}

/// Check the consistency of the tool-free retry: the re-issued request
/// must not carry tool directives. A second pass that still uses tools is
/// a fatal consistency fault, reported as a tool error rather than looping.
pub fn confirm_no_tool_retry(using_tools: bool) -> (r: Result<(), InferError>)
    ensures
        r is Ok <==> !using_tools,
        r matches Err(e) ==> (e matches InferError::ToolError(m) && m@
            == spec_retry_fault_message()),
{
    if using_tools {
        Err(InferError::ToolError(String::from_str("tool directives survived the tool-free retry")))
    } else {
        Ok(())
    }
}

/// The message reported when the tool-free retry still carries tools.
pub open spec fn spec_retry_fault_message() -> Seq<char> {
    "tool directives survived the tool-free retry"@
}

/// The model id reported to the client: the served model, unless the
/// request named some other model than the gateway's own alias.
pub open spec fn spec_resolved_model(requested: Option<String>, served: Seq<char>) -> Seq<char> {
    match requested {
        Some(m) => if m@ == "tgi"@ {
            served
        } else {
            m@
        },
        None => served,
    }
}

/// Resolve the model id reported to the client.
pub fn resolve_model_id(requested: &Option<String>, served: &String) -> (r: String)
    ensures
        r@ == spec_resolved_model(*requested, served@),
{
    match requested {
        Some(m) => {
            if *m == String::from_str("tgi") {
                served.clone()
            } else {
                m.clone()
            }
        },
        None => served.clone(),
    }
}

/// Flush buffered tokens as tool-call deltas, in order.
fn flush_tool_deltas(buffer: Vec<Token>) -> (out: Vec<ChatItem>)
    ensures
        out@ == buffer@.map_values(|t: Token| ChatItem::ToolDelta(t)),
{
    let ghost buffer0 = buffer@;
    let mut remaining = buffer;
    let mut out: Vec<ChatItem> = Vec::new();
    while remaining.len() != 0
        invariant
            out@.len() + remaining@.len() == buffer0.len(),
            remaining@ == buffer0.subrange(out@.len() as int, buffer0.len() as int),
            forall|k: int|
                0 <= k < out@.len() ==> out@[k] == ChatItem::ToolDelta(#[trigger] buffer0[k]),
        decreases remaining@.len(),
    {
        proof {
            assert(remaining@[0] == buffer0[out@.len() as int]);
            assert(remaining@.remove(0) =~= buffer0.subrange(
                out@.len() as int + 1,
                buffer0.len() as int,
            ));
        }
        let t = remaining.remove(0);
        out.push(ChatItem::ToolDelta(t));
    }
    proof {
        assert(out@ =~= buffer0.map_values(|t: Token| ChatItem::ToolDelta(t)));
    }
    out
}

} // verus!
