//! Planning of a completions-style request: an array-valued prompt is
//! checked against the configured limits and expanded into one generation
//! request per prompt, ready for fan-out.

use vstd::prelude::*;
use crate::request::GenerateParameters;
use crate::request::GenerateRequest;

verus! {

/// The fields of a completions-style request that this layer reads. The
/// purely forwarded sampling knobs stay with the transport layer; whether
/// the temperature was exactly zero is decided at that boundary and enters
/// here as a plain flag.
#[derive(Clone, PartialEq, Eq, Debug)]
pub struct CompletionPlanInput {
    /// The prompts, one branch each.
    pub prompts: Vec<String>,
    /// The model named by the request, if any.
    pub model: Option<String>,
    /// Token budget per prompt.
    pub max_tokens: Option<u32>,
    /// Pinned sampling seed, if any.
    pub seed: Option<u64>,
    /// Stop sequences.
    pub stop: Option<Vec<String>>,
    /// Whether the response streams.
    pub stream: bool,
    /// Whether the request carried a suffix, which is unsupported.
    pub suffix_present: bool,
    /// Whether the requested temperature was exactly zero, which selects
    /// greedy decoding.
    pub temperature_zero: bool,
}

/// Rejections of a completions-style request, before any fan-out.
#[derive(Clone, Copy, PartialEq, Eq, Structural, Debug)]
pub enum CompletionPlanError {
    /// A suffix can be achieved by preprocessing the prompt and is not
    /// supported.
    SuffixNotSupported,
    /// More prompts than the configured client batch size allows; the
    /// configured maximum is carried along.
    BatchSizeExceeded(usize),
}

/// The decimal digit characters.
pub open spec fn spec_digit(d: int) -> char {
    if d == 0 {
        '0'
    } else if d == 1 {
        '1'
    } else if d == 2 {
        '2'
    } else if d == 3 {
        '3'
    } else if d == 4 {
        '4'
    } else if d == 5 {
        '5'
    } else if d == 6 {
        '6'
    } else if d == 7 {
        '7'
    } else if d == 8 {
        '8'
    } else {
        '9'
    }
}

/// The decimal digits of a number, most significant first.
pub open spec fn spec_decimal(n: int) -> Seq<char>
    decreases n,
{
    if n < 10 {
        seq![spec_digit(n)]
    } else {
        spec_decimal(n / 10).push(spec_digit(n % 10))
    }
}

/// One decimal digit as text.
fn digit_str(d: u64) -> (r: &'static str)
    requires
        d < 10,
    ensures
        r@ == seq![spec_digit(d as int)],
{
    proof {
        reveal_strlit("0");
        reveal_strlit("1");
        reveal_strlit("2");
        reveal_strlit("3");
        reveal_strlit("4");
        reveal_strlit("5");
        reveal_strlit("6");
        reveal_strlit("7");
        reveal_strlit("8");
        reveal_strlit("9");
    }
    if d == 0 {
        "0"
    } else if d == 1 {
        "1"
    } else if d == 2 {
        "2"
    } else if d == 3 {
        "3"
    } else if d == 4 {
        "4"
    } else if d == 5 {
        "5"
    } else if d == 6 {
        "6"
    } else if d == 7 {
        "7"
    } else if d == 8 {
        "8"
    } else {
        "9"
    }
}

/// Render a number in decimal.
fn decimal_string(n: u64) -> (s: String)
    ensures
        s@ == spec_decimal(n as int),
    decreases n,
{
    if n < 10 {
        let s = String::from_str(digit_str(n));
        proof {
            assert(s@ =~= spec_decimal(n as int));
        }
        s
    } else {
        let mut s = decimal_string(n / 10);
        s.append(digit_str(n % 10));
        proof {
            assert(s@ =~= spec_decimal(n as int));
        }
        s
    }
}

impl CompletionPlanError {
    /// The status code of every completions-plan rejection: the request
    /// shape is unprocessable.
    pub fn status_code(&self) -> (code: u16)
        ensures
            code == 422,
    {
        422
    }

    /// The stable category string of this rejection.
    pub fn error_type(&self) -> (r: &'static str)
        ensures
            *self is SuffixNotSupported ==> r@ == "suffix not supported"@,
            *self is BatchSizeExceeded ==> r@ == "batch size exceeded"@,
    {
        match self {
            CompletionPlanError::SuffixNotSupported => "suffix not supported",
            CompletionPlanError::BatchSizeExceeded(_) => "batch size exceeded",
        }
    }

    /// The human-readable message of this rejection; the batch-size
    /// message names the allowed maximum.
    pub fn message(&self) -> (r: String)
        ensures
            *self is SuffixNotSupported ==> r@
                == "Suffix is not supported and can be achieved by preprocessing the prompt."@,
            *self matches CompletionPlanError::BatchSizeExceeded(max) ==> r@
                == "Number of prompts exceeds the maximum allowed batch size of "@ + spec_decimal(
                max as int,
            ),
    {
        match self {
            CompletionPlanError::SuffixNotSupported => String::from_str(
                "Suffix is not supported and can be achieved by preprocessing the prompt.",
            ),
            CompletionPlanError::BatchSizeExceeded(max) => {
                let mut s = String::from_str(
                    "Number of prompts exceeds the maximum allowed batch size of ",
                );
                s.append(decimal_string(*max as u64).as_str());
                s
            },
        }
    }
}

/// The adapter a completions request selects: the model it names, unless
/// that is the gateway's own alias.
pub open spec fn spec_adapter_id(model: Option<String>) -> Option<String> {
    match model {
        Some(m) => if m@ == "tgi"@ {
            None
        } else {
            Some(m)
        },
        None => None,
    }
}

/// How each planned generation request relates to its prompt and the
/// request it came from: the prompt becomes the input, decoding is greedy
/// exactly when the temperature was zero, details are always collected,
/// decoder input details exactly on non-streaming calls, and best-of never
/// applies to a fanned-out prompt.
pub open spec fn spec_planned_request(
    r: GenerateRequest,
    prompt: String,
    input: CompletionPlanInput,
) -> bool {
    &&& r.inputs == prompt
    &&& r.add_special_tokens == true
    &&& r.parameters.best_of is None
    &&& r.parameters.return_full_text is None
    &&& r.parameters.details == true
    &&& r.parameters.decoder_input_details == !input.stream
    &&& r.parameters.max_new_tokens == input.max_tokens
    &&& r.parameters.seed == input.seed
    &&& r.parameters.do_sample == !input.temperature_zero
    &&& r.parameters.stop@ == (match input.stop {
        Some(s) => s@,
        None => Seq::<String>::empty(),
    })
    &&& r.parameters.adapter_id == spec_adapter_id(input.model)
}

/// Copy a list of stop sequences.
fn clone_string_vec(v: &Vec<String>) -> (out: Vec<String>)
    ensures
        out@ == v@,
{
    let mut out: Vec<String> = Vec::new();
    let mut i: usize = 0;
    while i < v.len()
        invariant
            0 <= i <= v@.len(),
            out@.len() == i,
            forall|k: int| 0 <= k < i ==> out@[k] == v@[k],
        decreases v@.len() - i,
    {
        out.push(v[i].clone());
        i = i + 1;
    }
    proof {
        assert(out@ =~= v@);
    }
    out
}

/// The adapter id this request selects.
fn adapter_id_of(model: &Option<String>) -> (r: Option<String>)
    ensures
        r == spec_adapter_id(*model),
{
    match model {
        Some(m) => {
            if *m == String::from_str("tgi") {
                None
            } else {
                Some(m.clone())
            }
        },
        None => None,
    }
}

/// Check a completions-style request against the configured limits and
/// expand it into one generation request per prompt, in prompt order.
/// Rejects a request carrying a suffix, and one with more prompts than
/// the configured client batch size; otherwise every prompt is planned.
pub fn plan_completion_requests(input: CompletionPlanInput, max_client_batch_size: usize) -> (r:
    Result<Vec<GenerateRequest>, CompletionPlanError>)
    ensures
        input.suffix_present ==> r == Err::<Vec<GenerateRequest>, CompletionPlanError>(
            CompletionPlanError::SuffixNotSupported,
        ),
        (!input.suffix_present && input.prompts@.len() > max_client_batch_size) ==> r == Err::<
            Vec<GenerateRequest>,
            CompletionPlanError,
        >(CompletionPlanError::BatchSizeExceeded(max_client_batch_size)),
        r is Ok <==> (!input.suffix_present && input.prompts@.len() <= max_client_batch_size),
        r matches Ok(reqs) ==> (reqs@.len() == input.prompts@.len() && (forall|i: int|
            0 <= i < reqs@.len() ==> spec_planned_request(
                #[trigger] reqs@[i],
                input.prompts@[i],
                input,
            ))),
{
    if input.suffix_present {
        return Err(CompletionPlanError::SuffixNotSupported);
    }
    if input.prompts.len() > max_client_batch_size {
        return Err(CompletionPlanError::BatchSizeExceeded(max_client_batch_size));
    }
    let stop: Vec<String> = match &input.stop {
        Some(s) => clone_string_vec(s),
        None => Vec::new(),
    };
    let adapter_id = adapter_id_of(&input.model);
    let mut reqs: Vec<GenerateRequest> = Vec::new();
    let mut i: usize = 0;
    while i < input.prompts.len()
        invariant
            0 <= i <= input.prompts@.len(),
            reqs@.len() == i,
            stop@ == (match input.stop {
                Some(s) => s@,
                None => Seq::<String>::empty(),
            }),
            adapter_id == spec_adapter_id(input.model),
            forall|k: int|
                0 <= k < i ==> spec_planned_request(
                    #[trigger] reqs@[k],
                    input.prompts@[k],
                    input,
                ),
        decreases input.prompts@.len() - i,
    {
        let prompt = input.prompts[i].clone();
        reqs.push(
            GenerateRequest {
                inputs: prompt,
                add_special_tokens: true,
                parameters: GenerateParameters {
                    best_of: None,
                    return_full_text: None,
                    details: true,
                    decoder_input_details: !input.stream,
                    stop: clone_string_vec(&stop),
                    max_new_tokens: input.max_tokens,
                    seed: input.seed,
                    do_sample: !input.temperature_zero,
                    adapter_id: match &adapter_id {
                        Some(a) => Some(a.clone()),
                        None => None,
                    },
                },
            },
        );
        i = i + 1;
    }
    Ok(reqs)
}

} // verus!
