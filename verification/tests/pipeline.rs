use inference_router::aggregate::AggregateError;
use inference_router::aggregate::build_completion_choices;
use inference_router::aggregate::collect_branches;
use inference_router::aggregate::aggregate_headers;
use inference_router::aggregate::aggregate_stream_headers;
use inference_router::best_of::select_best;
use inference_router::compat::FallbackConfig;
use inference_router::compat::build_models_list;
use inference_router::compat::health_response;
use inference_router::compat::plan_tokenizer_fallback;
use inference_router::completions::CompletionPlanError;
use inference_router::completions::CompletionPlanInput;
use inference_router::completions::plan_completion_requests;
use inference_router::errors::InferError;
use inference_router::errors::ValidationError;
use inference_router::errors::WebServerError;
use inference_router::events::BackendResponse;
use inference_router::events::FinalizedText;
use inference_router::events::FinishReason;
use inference_router::events::StreamEvent;
use inference_router::events::Token;
use inference_router::request::GenerateParameters;
use inference_router::request::GenerateRequest;
use inference_router::request::compat_return_full_text_default;
use inference_router::response::finalize_generation;
use inference_router::stream::StreamItem;
use inference_router::stream::StreamState;
use inference_router::stream::collect_stream;
use inference_router::timing::TimingBreakdown;
use inference_router::timing::Timestamps;
use inference_router::tokenize::Encoding;
use inference_router::tokenize::encoding_to_tokens;

fn params() -> GenerateParameters {
    GenerateParameters {
        best_of: None,
        return_full_text: None,
        details: false,
        decoder_input_details: false,
        stop: vec![],
        max_new_tokens: Some(16),
        seed: None,
        do_sample: false,
        adapter_id: None,
    }
}

fn request(inputs: &str, p: GenerateParameters) -> GenerateRequest {
    GenerateRequest { inputs: inputs.to_string(), add_special_tokens: true, parameters: p }
}

fn token(text: &str) -> Token {
    Token { id: 7, text: text.to_string(), special: false }
}

fn backend_response(text: &str, tokens: u32) -> BackendResponse {
    BackendResponse {
        input_length: 3,
        prefill: vec![],
        tokens: vec![token(text)],
        top_tokens: vec![],
        generated_text: FinalizedText {
            text: text.to_string(),
            finish_reason: FinishReason::Length,
            generated_tokens: tokens,
            seed: Some(42),
        },
        queued: 150,
        started: 250,
    }
}

fn end_event(text: &str) -> StreamEvent {
    StreamEvent::End {
        token: token(text),
        generated_text: FinalizedText {
            text: text.to_string(),
            finish_reason: FinishReason::EndOfSequenceToken,
            generated_tokens: 2,
            seed: None,
        },
        queued: 10,
        started: 20,
        top_tokens: vec![],
    }
}

#[test]
fn best_of_stream_is_rejected_before_the_backend() {
    // Single prompt, best_of = 3, stream = true: refused with a validation
    // error, before any permit is consumed.
    let mut p = params();
    p.best_of = Some(3);
    match StreamState::begin(&request("hi", p), 3) {
        Err(InferError::ValidationError(ValidationError::BestOfStream)) => {}
        other => panic!("expected the best-of rejection, got {:?}", other),
    }
    let mut q = params();
    q.decoder_input_details = true;
    match StreamState::begin(&request("hi", q), 3) {
        Err(InferError::ValidationError(ValidationError::PrefillDetailsStream)) => {}
        other => panic!("expected the prefill-details rejection, got {:?}", other),
    }
}

#[test]
fn severed_stream_reports_incomplete_generation() {
    // Prefill, two tokens, then the backend connection is severed with no
    // End event: the caller sees IncompleteGenerationStream, not a
    // truncated success.
    let st = StreamState::begin(&request("hi", params()), 3).unwrap();
    let items: Vec<Result<StreamEvent, InferError>> = vec![
        Ok(StreamEvent::Prefill(vec![])),
        Ok(StreamEvent::Token { token: token("a"), top_tokens: vec![] }),
        Ok(StreamEvent::Token { token: token("b"), top_tokens: vec![] }),
    ];
    let out = collect_stream(st, items);
    assert_eq!(out.len(), 3);
    assert!(matches!(&out[0], StreamItem::Response(r) if r.generated_text.is_none()));
    assert!(matches!(&out[1], StreamItem::Response(r) if r.generated_text.is_none()));
    assert!(matches!(out.last().unwrap(), StreamItem::Error(InferError::IncompleteGenerationStream)));
}

#[test]
fn completed_stream_ends_with_the_finished_text() {
    let mut p = params();
    p.return_full_text = Some(true);
    p.details = true;
    let st = StreamState::begin(&request("Q: ", p), 3).unwrap();
    let items: Vec<Result<StreamEvent, InferError>> = vec![
        Ok(StreamEvent::Prefill(vec![])),
        Ok(StreamEvent::Token { token: token("a"), top_tokens: vec![] }),
        Ok(end_event("answer")),
    ];
    let out = collect_stream(st, items);
    assert_eq!(out.len(), 2);
    match &out[1] {
        StreamItem::Response(r) => {
            assert_eq!(r.index, 3);
            // The prompt is prepended because return_full_text was set.
            assert_eq!(r.generated_text.as_deref(), Some("Q: answer"));
            let d = r.details.expect("details were requested");
            assert_eq!(d.generated_tokens, 2);
            assert_eq!(d.input_length, 3);
            assert_eq!(d.finish_reason, FinishReason::EndOfSequenceToken);
        }
        other => panic!("expected the terminal response, got {:?}", other),
    }
}

#[test]
fn backend_error_is_forwarded_in_stream() {
    let st = StreamState::begin(&request("hi", params()), 1).unwrap();
    let items: Vec<Result<StreamEvent, InferError>> = vec![
        Ok(StreamEvent::Token { token: token("a"), top_tokens: vec![] }),
        Err(InferError::GenerationError("cuda oom".to_string())),
    ];
    let out = collect_stream(st, items);
    assert_eq!(out.len(), 2);
    match out.last().unwrap() {
        StreamItem::Error(InferError::GenerationError(m)) => assert_eq!(m, "cuda oom"),
        other => panic!("expected the forwarded backend error, got {:?}", other),
    }
}

#[test]
fn timing_components_sum_to_the_total() {
    let ts = Timestamps { arrival: 100, queued: 150, started: 250, completed: 1250 };
    let t = TimingBreakdown::new(ts, 10);
    assert_eq!(t.validation_ns, 50);
    assert_eq!(t.queue_ns, 100);
    assert_eq!(t.inference_ns, 1000);
    assert_eq!(t.total_ns, 1150);
    assert_eq!(t.total_ns, t.validation_ns + t.queue_ns + t.inference_ns);
    assert_eq!(t.time_per_token_ns, 100);
}

#[test]
fn best_of_promotes_one_and_prepends_the_prompt_everywhere() {
    let cands = vec![
        backend_response("alpha", 2),
        backend_response("beta", 2),
        backend_response("gamma", 2),
    ];
    let (primary, alternates) = select_best(cands, 1);
    assert_eq!(primary.generated_text.text, "beta");
    assert_eq!(alternates.len(), 2);
    assert_eq!(alternates[0].generated_text.text, "alpha");
    assert_eq!(alternates[1].generated_text.text, "gamma");

    let mut p = params();
    p.return_full_text = Some(true);
    p.details = true;
    let req = request("P: ", p);
    let (_headers, _input_length, resp) =
        finalize_generation(&req, primary, Some(alternates), 100, 2000, "gpu".to_string());
    assert_eq!(resp.generated_text, "P: beta");
    let d = resp.details.expect("details were requested");
    let seqs = d.best_of_sequences.expect("best-of alternates expected");
    assert_eq!(seqs.len(), 2);
    assert_eq!(seqs[0].generated_text, "P: alpha");
    assert_eq!(seqs[1].generated_text, "P: gamma");
}

#[test]
fn finalize_fills_headers_and_details() {
    let mut p = params();
    p.details = true;
    let req = request("abc", p);
    let (headers, input_length, resp) =
        finalize_generation(&req, backend_response("out", 5), None, 100, 1100, "gpu+optimized".to_string());
    assert_eq!(input_length, 3);
    assert_eq!(headers.compute_type, "gpu+optimized");
    assert_eq!(headers.compute_characters, 3);
    assert_eq!(headers.prompt_tokens, 3);
    assert_eq!(headers.generated_tokens, 5);
    assert_eq!(headers.timing.total_ns, 1000);
    assert_eq!(headers.timing.validation_ns, 50);
    assert_eq!(headers.timing.queue_ns, 100);
    assert_eq!(headers.timing.inference_ns, 850);
    assert_eq!(headers.timing.time_per_token_ns, 170);
    assert_eq!(resp.generated_text, "out");
    let d = resp.details.expect("details were requested");
    assert_eq!(d.generated_tokens, 5);
    assert_eq!(d.seed, Some(42));
    assert!(d.best_of_sequences.is_none());
}

#[test]
fn one_failed_branch_fails_the_whole_aggregate() {
    // Prompt array of 3, stream = false, one branch fails: the aggregate
    // returns that error, never a 2-of-3 partial result.
    let results: Vec<Result<u32, InferError>> = vec![
        Ok(10),
        Err(InferError::GenerationError("boom".to_string())),
        Ok(30),
    ];
    match collect_branches(results) {
        Err(InferError::GenerationError(m)) => assert_eq!(m, "boom"),
        other => panic!("expected the branch error, got {:?}", other),
    }
    let all_ok: Vec<Result<u32, InferError>> = vec![Ok(10), Ok(20)];
    assert_eq!(collect_branches(all_ok).unwrap(), vec![10, 20]);
}

#[test]
fn header_aggregation_sums_and_takes_first_compute_type() {
    let mut p = params();
    p.details = true;
    let req_a = request("aa", p.clone());
    let req_b = request("bbb", p);
    let (ha, _, ra) = finalize_generation(&req_a, backend_response("x", 2), None, 100, 1100, "gpu".to_string());
    let (hb, _, rb) = finalize_generation(&req_b, backend_response("y", 4), None, 100, 2100, "cpu".to_string());
    let headers = vec![ha, hb];
    let (agg, usage) = aggregate_headers(&headers);
    assert_eq!(agg.compute_type.as_deref(), Some("gpu"));
    assert_eq!(agg.compute_characters, 5);
    assert_eq!(agg.total_time_ns, 1000 + 2000);
    assert_eq!(agg.prompt_tokens, 6);
    assert_eq!(agg.generated_tokens, 6);
    assert_eq!(usage.prompt_tokens, 6);
    assert_eq!(usage.completion_tokens, 6);
    assert_eq!(usage.total_tokens, 12);

    let choices = build_completion_choices(vec![ra, rb]).unwrap();
    assert_eq!(choices.len(), 2);
    assert_eq!(choices[0].index, 0);
    assert_eq!(choices[1].index, 1);
    assert_eq!(choices[0].text, "x");
    assert_eq!(choices[1].text, "y");
    assert_eq!(choices[0].finish_reason, "length");
}

#[test]
fn stream_header_aggregation_takes_first_type_and_sums_characters() {
    let branches =
        vec![("gpu".to_string(), 11u64), ("cpu".to_string(), 7u64), ("gpu".to_string(), 2u64)];
    let (compute_type, characters) = aggregate_stream_headers(&branches);
    assert_eq!(compute_type.as_deref(), Some("gpu"));
    assert_eq!(characters, 20);
    let (none_type, zero) = aggregate_stream_headers(&vec![]);
    assert!(none_type.is_none());
    assert_eq!(zero, 0);
}

#[test]
fn choices_without_details_are_an_aggregation_error() {
    let bare = inference_router::response::GenerateResponse {
        generated_text: "x".to_string(),
        details: None,
    };
    assert_eq!(build_completion_choices(vec![bare]), Err(AggregateError::MissingDetails));
}

#[test]
fn completion_planning_checks_limits_and_expands_prompts() {
    let input = CompletionPlanInput {
        prompts: vec!["one".to_string(), "two".to_string(), "three".to_string()],
        model: Some("adapter-z".to_string()),
        max_tokens: Some(8),
        seed: Some(5),
        stop: Some(vec!["\n".to_string()]),
        stream: false,
        suffix_present: false,
        temperature_zero: true,
    };
    let reqs = plan_completion_requests(input, 4).unwrap();
    assert_eq!(reqs.len(), 3);
    assert_eq!(reqs[0].inputs, "one");
    assert_eq!(reqs[2].inputs, "three");
    for r in &reqs {
        assert!(r.parameters.best_of.is_none());
        assert!(r.parameters.details);
        // Non-streaming calls collect decoder input details.
        assert!(r.parameters.decoder_input_details);
        // Temperature zero selects greedy decoding.
        assert!(!r.parameters.do_sample);
        assert_eq!(r.parameters.max_new_tokens, Some(8));
        assert_eq!(r.parameters.seed, Some(5));
        assert_eq!(r.parameters.stop, vec!["\n".to_string()]);
        assert_eq!(r.parameters.adapter_id.as_deref(), Some("adapter-z"));
    }
}

#[test]
fn completion_planning_rejects_suffix_and_oversized_batches() {
    let mut input = CompletionPlanInput {
        prompts: vec!["a".to_string(), "b".to_string(), "c".to_string()],
        model: None,
        max_tokens: None,
        seed: None,
        stop: None,
        stream: true,
        suffix_present: true,
        temperature_zero: false,
    };
    assert_eq!(
        plan_completion_requests(input.clone(), 4),
        Err(CompletionPlanError::SuffixNotSupported)
    );
    input.suffix_present = false;
    assert_eq!(
        plan_completion_requests(input.clone(), 2),
        Err(CompletionPlanError::BatchSizeExceeded(2))
    );
    assert_eq!(CompletionPlanError::SuffixNotSupported.error_type(), "suffix not supported");
    assert_eq!(CompletionPlanError::SuffixNotSupported.status_code(), 422);
    assert_eq!(CompletionPlanError::BatchSizeExceeded(2).status_code(), 422);
    assert_eq!(
        CompletionPlanError::BatchSizeExceeded(2).message(),
        "Number of prompts exceeds the maximum allowed batch size of 2"
    );
    assert_eq!(
        CompletionPlanError::BatchSizeExceeded(1204).message(),
        "Number of prompts exceeds the maximum allowed batch size of 1204"
    );
    let reqs = plan_completion_requests(input, 3).unwrap();
    assert_eq!(reqs.len(), 3);
    // The gateway's own alias selects no adapter; streaming calls skip
    // decoder input details; an unset temperature keeps sampling on.
    assert!(reqs[0].parameters.adapter_id.is_none());
    assert!(!reqs[0].parameters.decoder_input_details);
    assert!(reqs[0].parameters.do_sample);
}

#[test]
fn error_taxonomy_is_stable() {
    let cases: Vec<(InferError, u16, &str)> = vec![
        (InferError::GenerationError("x".to_string()), 424, "generation"),
        (InferError::Overloaded, 429, "overloaded"),
        (InferError::ValidationError(ValidationError::BestOfStream), 422, "validation"),
        (InferError::IncompleteGeneration, 500, "incomplete_generation"),
        (InferError::IncompleteGenerationStream, 500, "incomplete_generation_stream"),
        (InferError::TemplateError("t".to_string()), 422, "template_error"),
        (InferError::MissingTemplateVariable("v".to_string()), 422, "template_error"),
        (InferError::ToolError("w".to_string()), 422, "tool_error"),
        (InferError::StreamSerializationError("s".to_string()), 500, "stream_serialization_error"),
    ];
    for (err, code, kind) in cases {
        assert_eq!(err.status_code(), code);
        assert_eq!(err.error_type(), kind);
    }
    assert_eq!(
        InferError::GenerationError("oom".to_string()).message(),
        "Request failed during generation: oom"
    );
    assert_eq!(InferError::Overloaded.message(), "Model is overloaded");
    let body = InferError::IncompleteGenerationStream.to_response();
    assert_eq!(body.error, "Incomplete generation stream");
    assert_eq!(body.error_type, "incomplete_generation_stream");
    assert_eq!(
        InferError::ValidationError(ValidationError::BestOfStream).message(),
        "Input validation error: `best_of` != 1 is not supported when streaming tokens"
    );
}

#[test]
fn web_server_error_messages() {
    assert_eq!(
        WebServerError::Tokenizer("no tokenizer".to_string()).message(),
        "Tokenizer error: no tokenizer"
    );
    assert_eq!(
        WebServerError::Server("bind failed".to_string()).message(),
        "Server error: bind failed"
    );
}

#[test]
fn tokenize_pairs_ids_with_their_byte_ranges() {
    let encoding = Encoding { ids: vec![5, 6, 7], offsets: vec![(0, 2), (1, 3), (2, 99)] };
    let input: Vec<u8> = b"hello".to_vec();
    let tokens = encoding_to_tokens(&encoding, &input);
    assert_eq!(tokens.len(), 3);
    assert_eq!(tokens[0].id, 5);
    assert_eq!(tokens[0].text, "he");
    assert_eq!((tokens[0].start, tokens[0].stop), (0, 2));
    assert_eq!(tokens[1].text, "el");
    // A range past the end of the input is clipped to it.
    assert_eq!(tokens[2].text, "llo");
    assert_eq!((tokens[2].start, tokens[2].stop), (2, 99));
}

#[test]
fn tokenize_decodes_broken_bytes_lossily() {
    // A byte range that splits or corrupts a character still decodes,
    // with the replacement character standing in for the broken byte.
    let encoding = Encoding { ids: vec![1], offsets: vec![(0, 2)] };
    let input: Vec<u8> = vec![0xff, 0x61];
    let tokens = encoding_to_tokens(&encoding, &input);
    assert_eq!(tokens[0].text, "\u{fffd}a");
}

#[test]
fn tokenize_accepts_inverted_and_overlong_ranges() {
    // An inverted range covers nothing; a range past the end is clipped.
    let encoding = Encoding { ids: vec![1, 2], offsets: vec![(3, 1), (90, 99)] };
    let input: Vec<u8> = b"hello".to_vec();
    let tokens = encoding_to_tokens(&encoding, &input);
    assert_eq!(tokens.len(), 2);
    assert_eq!(tokens[0].text, "");
    assert_eq!((tokens[0].start, tokens[0].stop), (3, 1));
    assert_eq!(tokens[1].text, "");
}

#[test]
fn tokenize_with_mismatched_offsets_returns_bare_ids() {
    let encoding = Encoding { ids: vec![5, 6], offsets: vec![(0, 1)] };
    let input: Vec<u8> = b"hi".to_vec();
    let tokens = encoding_to_tokens(&encoding, &input);
    assert_eq!(tokens.len(), 2);
    assert_eq!(tokens[0].id, 5);
    assert_eq!(tokens[1].id, 6);
    assert_eq!(tokens[0].text, "");
    assert_eq!((tokens[1].start, tokens[1].stop), (0, 0));
}

#[test]
fn health_reflects_the_backend_not_the_gate() {
    assert!(health_response(true).is_ok());
    let (status, err) = health_response(false).unwrap_err();
    assert_eq!(status, 503);
    assert_eq!(err.error, "unhealthy");
    assert_eq!(err.error_type, "healthcheck");
}

#[test]
fn models_list_names_the_served_model() {
    let list = build_models_list(&"org/model".to_string());
    assert_eq!(list.object, "list");
    assert_eq!(list.data.len(), 1);
    assert_eq!(list.data[0].id, "org/model");
    assert_eq!(list.data[0].owned_by, "org/model");
    assert_eq!(list.data[0].object, "model");
}

#[test]
fn tokenizer_fallback_plan_follows_the_config() {
    let (base, ssm) = plan_tokenizer_fallback(FallbackConfig {
        model_type_present: false,
        base_model: Some("org/base".to_string()),
        ssm_config_present: false,
    });
    assert_eq!(base.as_deref(), Some("org/base"));
    assert!(!ssm);
    let (base2, ssm2) = plan_tokenizer_fallback(FallbackConfig {
        model_type_present: true,
        base_model: Some("org/base".to_string()),
        ssm_config_present: true,
    });
    assert!(base2.is_none());
    assert!(ssm2);
}

#[test]
fn compat_full_text_default_follows_the_pipeline_tag() {
    assert!(compat_return_full_text_default(None));
    assert!(compat_return_full_text_default(Some(&"text-generation".to_string())));
    assert!(!compat_return_full_text_default(Some(&"image-classification".to_string())));
    let p = params().with_default_return_full_text(true);
    assert_eq!(p.return_full_text, Some(true));
    let mut q = params();
    q.return_full_text = Some(false);
    let q = q.with_default_return_full_text(true);
    assert_eq!(q.return_full_text, Some(false));
}
