use inference_router::admission::AdmissionDecision;
use inference_router::admission::AdmissionGate;
use inference_router::branch::BranchPhase;
use inference_router::branch::BranchTask;
use inference_router::chat::ChatAction;
use inference_router::chat::ChatItem;
use inference_router::chat::ChatMachine;
use inference_router::chat::ChatWireItem;
use inference_router::chat::chat_session_collect;
use inference_router::chat::PushOutcome;
use inference_router::chat::ToolHint;
use inference_router::chat::ToolParse;
use inference_router::chat::chat_followup;
use inference_router::chat::confirm_no_tool_retry;
use inference_router::chat::resolve_model_id;
use inference_router::errors::InferError;
use inference_router::events::FinishReason;
use inference_router::events::Token;
use inference_router::multiplex::MuxCmd;
use inference_router::multiplex::merge_streams;
use inference_router::multiplex::MuxOutput;
use inference_router::multiplex::Multiplexer;
use inference_router::stream::StreamItem;
use inference_router::stream::StreamResponse;

fn token(text: &str) -> Token {
    Token { id: 1, text: text.to_string(), special: false }
}

fn response_item(index: u32, text: &str, terminal: bool) -> StreamItem {
    StreamItem::Response(StreamResponse {
        index,
        token: token(text),
        top_tokens: vec![],
        generated_text: if terminal { Some(text.to_string()) } else { None },
        details: None,
    })
}

fn stream_response(index: u32, text: &str, terminal: bool) -> StreamResponse {
    StreamResponse {
        index,
        token: token(text),
        top_tokens: vec![],
        generated_text: if terminal { Some(text.to_string()) } else { None },
        details: None,
    }
}

#[test]
fn gate_never_exceeds_capacity() {
    let mut gate = AdmissionGate::new(2);
    let p1 = match gate.try_acquire(false) {
        AdmissionDecision::Admitted(p) => p,
        _ => panic!("first admission must succeed"),
    };
    let _p2 = match gate.try_acquire(false) {
        AdmissionDecision::Admitted(p) => p,
        _ => panic!("second admission must succeed"),
    };
    assert_eq!(gate.live_permits(), 2);
    assert!(matches!(gate.try_acquire(false), AdmissionDecision::Wait));
    assert_eq!(gate.live_permits(), 2);
    // Releasing one permit allows exactly one more admission.
    assert!(gate.release(p1));
    let _p3 = match gate.try_acquire(false) {
        AdmissionDecision::Admitted(p) => p,
        _ => panic!("admission after a release must succeed"),
    };
    assert!(matches!(gate.try_acquire(false), AdmissionDecision::Wait));
}

#[test]
fn gate_refuses_when_backend_saturated() {
    let mut gate = AdmissionGate::new(4);
    assert!(matches!(gate.try_acquire(true), AdmissionDecision::Refuse));
    assert_eq!(gate.live_permits(), 0);
}

#[test]
fn gate_release_on_empty_frees_nothing() {
    let mut gate = AdmissionGate::new(1);
    let p = match gate.try_acquire(false) {
        AdmissionDecision::Admitted(p) => p,
        _ => panic!("admission must succeed"),
    };
    assert!(gate.release(p));
    let q = match gate.try_acquire(false) {
        AdmissionDecision::Admitted(q) => q,
        _ => panic!("admission must succeed"),
    };
    assert!(gate.release(q));
    assert_eq!(gate.live_permits(), 0);
}

#[test]
fn disconnect_releases_both_branch_permits() {
    // A 2-prompt batch whose client disconnects mid-stream: both branches
    // observe a failed delivery and release their permits, without the
    // backend finishing anything.
    let mut a = BranchTask::spawn();
    let mut b = BranchTask::spawn();
    assert!(a.permit_held && b.permit_held);
    assert!(a.on_delivery(false, false));
    assert!(b.on_delivery(false, false));
    assert!(!a.permit_held && !b.permit_held);
    assert_eq!(a.phase, BranchPhase::Cancelled);
    assert_eq!(b.phase, BranchPhase::Cancelled);
}

#[test]
fn delivered_terminal_finishes_branch_and_releases() {
    let mut t = BranchTask::spawn();
    assert!(!t.on_delivery(true, false));
    assert!(t.permit_held);
    assert!(t.on_delivery(true, true));
    assert!(!t.permit_held);
    assert_eq!(t.phase, BranchPhase::Finished);
}

#[test]
fn merge_keeps_per_branch_order_and_ends_with_done_once() {
    let cmds = vec![
        MuxCmd::Item(0, response_item(1, "a0", false)),
        MuxCmd::Item(1, response_item(1, "b0", false)),
        MuxCmd::Item(1, response_item(2, "b1", true)),
        MuxCmd::Close(1),
        MuxCmd::Item(0, response_item(2, "a1", true)),
        MuxCmd::Close(0),
    ];
    let out = merge_streams(2, cmds);
    // The sentinel is last and appears exactly once.
    assert!(matches!(out.last().unwrap(), MuxOutput::Done));
    let done_count = out.iter().filter(|o| matches!(o, MuxOutput::Done)).count();
    assert_eq!(done_count, 1);
    // Branch indices observed are exactly {0, 1}, and each branch's events
    // keep their own order.
    let mut branch0 = vec![];
    let mut branch1 = vec![];
    for o in &out {
        if let MuxOutput::Event(t) = o {
            assert!(t.index < 2);
            let text = match &t.item {
                StreamItem::Response(r) => r.token.text.clone(),
                StreamItem::Error(_) => panic!("no errors in this run"),
            };
            if t.index == 0 {
                branch0.push(text);
            } else {
                branch1.push(text);
            }
        }
    }
    assert_eq!(branch0, vec!["a0".to_string(), "a1".to_string()]);
    assert_eq!(branch1, vec!["b0".to_string(), "b1".to_string()]);
}

#[test]
fn merge_of_empty_batch_is_just_done() {
    let out = merge_streams(0, vec![]);
    assert_eq!(out.len(), 1);
    assert!(matches!(out[0], MuxOutput::Done));
}

#[test]
fn mux_sentinel_waits_for_every_branch() {
    let mut mux = Multiplexer::new(2);
    assert!(!mux.try_complete());
    mux.close(0);
    assert!(!mux.try_complete());
    mux.close(1);
    assert!(mux.try_complete());
    // Exactly once: a second attempt emits nothing.
    assert!(!mux.try_complete());
}

#[test]
fn chat_plain_text_restarts_exactly_once() {
    let mut m = ChatMachine::new(true, "fp-1".to_string(), "m-1".to_string(), false);
    // Undecided tokens are buffered, nothing is emitted.
    match m.push(stream_response(1, "Hello", false), ToolHint::Undecided) {
        PushOutcome::Emit(items) => assert!(items.is_empty()),
        PushOutcome::NoTool => panic!("undecided stream must not restart"),
    }
    // The heuristic resolves to plain text: the single restart is asked for.
    match m.push(stream_response(2, " there", false), ToolHint::PlainText) {
        PushOutcome::NoTool => {}
        PushOutcome::Emit(_) => panic!("plain text with tools enabled must restart"),
    }
    m.restart();
    assert!(!m.core.tools_enabled);
    assert!(m.core.restarted);
    assert_eq!(m.fingerprint, "fp-1".to_string());
    assert_eq!(m.model_id, "m-1".to_string());
    // The second pass forwards text and can never restart again.
    match m.push(stream_response(1, "Hi", false), ToolHint::PlainText) {
        PushOutcome::Emit(items) => {
            assert_eq!(items.len(), 1);
            assert!(matches!(&items[0], ChatItem::TextDelta(t) if t.text == "Hi"));
        }
        PushOutcome::NoTool => panic!("second pass must not restart"),
    }
    match m.push(stream_response(2, "!", true), ToolHint::PlainText) {
        PushOutcome::Emit(items) => {
            assert!(matches!(items.last().unwrap(), ChatItem::Final(_)));
        }
        PushOutcome::NoTool => panic!("second pass must not restart"),
    }
}

#[test]
fn chat_tool_call_streams_with_zero_restarts() {
    let mut m = ChatMachine::new(true, "fp".to_string(), "m".to_string(), false);
    match m.push(stream_response(1, "{\"fn\"", false), ToolHint::Undecided) {
        PushOutcome::Emit(items) => assert!(items.is_empty()),
        PushOutcome::NoTool => panic!("undecided stream must not restart"),
    }
    // The decision: the buffered token flushes as a tool delta, then the
    // deciding token follows.
    match m.push(stream_response(2, ":", false), ToolHint::ToolCall) {
        PushOutcome::Emit(items) => {
            assert_eq!(items.len(), 2);
            assert!(matches!(&items[0], ChatItem::ToolDelta(t) if t.text == "{\"fn\""));
            assert!(matches!(&items[1], ChatItem::ToolDelta(t) if t.text == ":"));
        }
        PushOutcome::NoTool => panic!("a tool call must not restart"),
    }
    match m.push(stream_response(3, "}", true), ToolHint::ToolCall) {
        PushOutcome::Emit(items) => {
            assert!(matches!(items.last().unwrap(), ChatItem::Final(_)));
        }
        PushOutcome::NoTool => panic!("a tool call must not restart"),
    }
}

#[test]
fn chat_without_tools_forwards_text() {
    let mut m = ChatMachine::new(false, "fp".to_string(), "m".to_string(), true);
    match m.push(stream_response(1, "plain", false), ToolHint::Undecided) {
        PushOutcome::Emit(items) => {
            assert_eq!(items.len(), 1);
            assert!(matches!(&items[0], ChatItem::TextDelta(t) if t.text == "plain"));
        }
        PushOutcome::NoTool => panic!("tools disabled must never restart"),
    }
}

#[test]
fn chat_followup_decides_the_single_retry() {
    assert_eq!(chat_followup(false, ToolParse::NoToolCall), ChatAction::ReturnText);
    assert_eq!(chat_followup(true, ToolParse::NoToolCall), ChatAction::RestartWithoutTools);
    let calls = vec![inference_router::chat::ToolCall {
        id: "0".to_string(),
        name: "get_weather".to_string(),
        arguments: "{}".to_string(),
    }];
    match chat_followup(true, ToolParse::ToolCalls(calls)) {
        ChatAction::ReturnToolCalls(cs) => {
            assert_eq!(cs.len(), 1);
            assert_eq!(cs[0].name, "get_weather".to_string());
        }
        other => panic!("expected structured tool calls, got {:?}", other),
    }
}

#[test]
fn retry_that_still_uses_tools_is_a_fatal_tool_error() {
    assert!(confirm_no_tool_retry(false).is_ok());
    match confirm_no_tool_retry(true) {
        Err(InferError::ToolError(m)) => {
            assert_eq!(m, "tool directives survived the tool-free retry".to_string());
        }
        other => panic!("expected a tool error, got {:?}", other),
    }
}

#[test]
fn model_id_resolution_prefers_the_request() {
    let served = "served/model".to_string();
    assert_eq!(resolve_model_id(&None, &served), "served/model".to_string());
    assert_eq!(resolve_model_id(&Some("tgi".to_string()), &served), "served/model".to_string());
    assert_eq!(resolve_model_id(&Some("adapter-a".to_string()), &served), "adapter-a".to_string());
}

#[test]
fn chat_session_emits_done_last_and_once() {
    // First pass: tools enabled, heuristic resolves to plain text mid-way,
    // so the session restarts once; the second pass streams text and ends.
    let machine = ChatMachine::new(true, "fp".to_string(), "m".to_string(), false);
    let first = vec![
        (stream_response(1, "Hello", false), ToolHint::Undecided),
        (stream_response(2, " there", false), ToolHint::PlainText),
    ];
    let second = vec![
        (stream_response(1, "Hi", false), ToolHint::Undecided),
        (stream_response(2, "!", true), ToolHint::Undecided),
    ];
    let out = chat_session_collect(machine, first, second);
    assert!(matches!(out.last().unwrap(), ChatWireItem::Done));
    let done_count = out.iter().filter(|o| matches!(o, ChatWireItem::Done)).count();
    assert_eq!(done_count, 1);
    // The discarded first pass forwarded nothing; the second pass's text
    // and terminal item are all that precede the sentinel.
    assert!(out.len() >= 3);
    assert!(matches!(&out[0], ChatWireItem::Item(ChatItem::TextDelta(t)) if t.text == "Hi"));
}

#[test]
fn finish_reason_names_follow_the_dialect() {
    assert_eq!(FinishReason::Length.as_str(), "length");
    assert_eq!(FinishReason::EndOfSequenceToken.as_str(), "eos_token");
    assert_eq!(FinishReason::StopSequence.as_str(), "stop_sequence");
    assert_eq!(FinishReason::EndOfSequenceToken.format(true), "stop");
    assert_eq!(FinishReason::StopSequence.format(true), "stop");
    assert_eq!(FinishReason::Length.format(true), "length");
    assert_eq!(FinishReason::StopSequence.format(false), "stop_sequence");
}
