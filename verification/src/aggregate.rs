//! Aggregation of a multi-prompt, non-streaming request: the per-branch
//! results are collected fail-fast — any branch error fails the whole
//! call — and the per-branch usage and timing values are reduced to one
//! aggregate, with each choice tagged by its original prompt index.

use vstd::prelude::*;
use crate::errors::InferError;
use crate::events::spec_finish_reason_format;
use crate::response::GenerateResponse;
use crate::response::ResponseHeaders;

verus! {

/// Collect the branches of a non-streaming batch, fail-fast: the aggregate
/// succeeds exactly when every branch succeeded, in which case the results
/// are returned in branch order; otherwise the first branch error in index
/// order fails the whole aggregate, and no partial result is returned.
pub fn collect_branches<T>(results: Vec<Result<T, InferError>>) -> (r: Result<Vec<T>, InferError>)
    ensures
        r is Ok <==> (forall|j: int| 0 <= j < results@.len() ==> (#[trigger] results@[j]) is Ok),
        r matches Ok(vs) ==> (vs@.len() == results@.len() && (forall|j: int|
            0 <= j < results@.len() ==> vs@[j] == (#[trigger] results@[j])->Ok_0)),
        r matches Err(e) ==> (exists|j: int|
            0 <= j < results@.len() && results@[j] == Err::<T, InferError>(e) && (forall|k: int|
                0 <= k < j ==> (#[trigger] results@[k]) is Ok)),
{
    let ghost results0 = results@;
    let mut remaining = results;
    let mut collected: Vec<T> = Vec::new();
    while remaining.len() != 0
        invariant
            results0 == results@,
            collected@.len() + remaining@.len() == results0.len(),
            remaining@ == results0.subrange(collected@.len() as int, results0.len() as int),
            forall|k: int| 0 <= k < collected@.len() ==> (#[trigger] results0[k]) is Ok,
            forall|k: int| 0 <= k < collected@.len() ==> collected@[k] == (#[trigger] results0[k])->Ok_0,
        decreases remaining@.len(),
    {
        proof {
            assert(remaining@[0] == results0[collected@.len() as int]);
            assert(remaining@.remove(0) =~= results0.subrange(
                collected@.len() as int + 1,
                results0.len() as int,
            ));
        }
        let next = remaining.remove(0);
        match next {
            Ok(v) => {
                collected.push(v);
            },
            Err(e) => {
                proof {
                    let j = collected@.len() as int;
                    assert(results0[j] == Err::<T, InferError>(e));
                    assert(forall|k: int| 0 <= k < j ==> (#[trigger] results0[k]) is Ok);
                }
                return Err(e);
            },
        }
    }
    Ok(collected)
}

/// The mathematical totals of a list of per-branch headers.
pub struct HeaderTotals {
    pub compute_characters: int,
    pub total_time_ns: int,
    pub validation_time_ns: int,
    pub queue_time_ns: int,
    pub inference_time_ns: int,
    pub time_per_token_ns: int,
    pub prompt_tokens: int,
    pub generated_tokens: int,
}

/// Sum every numeric header field over the branches.
pub open spec fn spec_header_totals(hs: Seq<ResponseHeaders>) -> HeaderTotals
    decreases hs.len(),
{
    if hs.len() == 0 {
        HeaderTotals {
            compute_characters: 0,
            total_time_ns: 0,
            validation_time_ns: 0,
            queue_time_ns: 0,
            inference_time_ns: 0,
            time_per_token_ns: 0,
            prompt_tokens: 0,
            generated_tokens: 0,
        }
    } else {
        let p = spec_header_totals(hs.drop_last());
        let h = hs.last();
        HeaderTotals {
            compute_characters: p.compute_characters + h.compute_characters,
            total_time_ns: p.total_time_ns + h.timing.total_ns,
            validation_time_ns: p.validation_time_ns + h.timing.validation_ns,
            queue_time_ns: p.queue_time_ns + h.timing.queue_ns,
            inference_time_ns: p.inference_time_ns + h.timing.inference_ns,
            time_per_token_ns: p.time_per_token_ns + h.timing.time_per_token_ns,
            prompt_tokens: p.prompt_tokens + h.prompt_tokens,
            generated_tokens: p.generated_tokens + h.generated_tokens,
        }
    }
}

/// Every total over a prefix is bounded by the total over the whole list.
proof fn lemma_totals_prefix_le(hs: Seq<ResponseHeaders>, i: int)
    requires
        0 <= i <= hs.len(),
    ensures
        spec_header_totals(hs.take(i)).compute_characters <= spec_header_totals(
            hs,
        ).compute_characters,
        spec_header_totals(hs.take(i)).total_time_ns <= spec_header_totals(hs).total_time_ns,
        spec_header_totals(hs.take(i)).validation_time_ns <= spec_header_totals(
            hs,
        ).validation_time_ns,
        spec_header_totals(hs.take(i)).queue_time_ns <= spec_header_totals(hs).queue_time_ns,
        spec_header_totals(hs.take(i)).inference_time_ns <= spec_header_totals(
            hs,
        ).inference_time_ns,
        spec_header_totals(hs.take(i)).time_per_token_ns <= spec_header_totals(
            hs,
        ).time_per_token_ns,
        spec_header_totals(hs.take(i)).prompt_tokens <= spec_header_totals(hs).prompt_tokens,
        spec_header_totals(hs.take(i)).generated_tokens <= spec_header_totals(hs).generated_tokens,
    decreases hs.len(),
{
    if i == hs.len() {
        assert(hs.take(i) =~= hs);
    } else {
        assert(hs.drop_last().take(i) =~= hs.take(i));
        lemma_totals_prefix_le(hs.drop_last(), i);
    }
}

/// Aggregate usage across the branches of one multi-prompt request.
#[derive(Clone, Copy, PartialEq, Eq, Structural, Debug)]
pub struct Usage {
    pub prompt_tokens: u64,
    pub completion_tokens: u64,
    pub total_tokens: u64,
}

/// The aggregate headers of a multi-prompt response: the first branch's
/// compute type, every numeric field summed across branches.
#[derive(Clone, PartialEq, Eq, Debug)]
pub struct AggregatedHeaders {
    pub compute_type: Option<String>,
    pub compute_characters: u64,
    pub total_time_ns: u64,
    pub validation_time_ns: u64,
    pub queue_time_ns: u64,
    pub inference_time_ns: u64,
    pub time_per_token_ns: u64,
    pub prompt_tokens: u64,
    pub generated_tokens: u64,
}

/// Reduce the per-branch headers of a batch: the compute type is taken
/// from the first branch, every numeric field is summed. The usage derived
/// from the sums is returned beside the headers.
pub fn aggregate_headers(headers: &Vec<ResponseHeaders>) -> (r: (AggregatedHeaders, Usage))
    requires
        spec_header_totals(headers@).compute_characters <= u64::MAX,
        spec_header_totals(headers@).total_time_ns <= u64::MAX,
        spec_header_totals(headers@).validation_time_ns <= u64::MAX,
        spec_header_totals(headers@).queue_time_ns <= u64::MAX,
        spec_header_totals(headers@).inference_time_ns <= u64::MAX,
        spec_header_totals(headers@).time_per_token_ns <= u64::MAX,
        spec_header_totals(headers@).prompt_tokens + spec_header_totals(headers@).generated_tokens
            <= u64::MAX,
    ensures
        r.0.compute_type == (if headers@.len() > 0 {
            Some(headers@[0].compute_type)
        } else {
            None::<String>
        }),
        r.0.compute_characters == spec_header_totals(headers@).compute_characters,
        r.0.total_time_ns == spec_header_totals(headers@).total_time_ns,
        r.0.validation_time_ns == spec_header_totals(headers@).validation_time_ns,
        r.0.queue_time_ns == spec_header_totals(headers@).queue_time_ns,
        r.0.inference_time_ns == spec_header_totals(headers@).inference_time_ns,
        r.0.time_per_token_ns == spec_header_totals(headers@).time_per_token_ns,
        r.0.prompt_tokens == spec_header_totals(headers@).prompt_tokens,
        r.0.generated_tokens == spec_header_totals(headers@).generated_tokens,
        r.1.prompt_tokens == spec_header_totals(headers@).prompt_tokens,
        r.1.completion_tokens == spec_header_totals(headers@).generated_tokens,
        r.1.total_tokens == r.1.prompt_tokens + r.1.completion_tokens,
{
    let compute_type = if headers.len() > 0 {
        Some(headers[0].compute_type.clone())
    } else {
        None
    };
    let mut compute_characters: u64 = 0;
    let mut total_time_ns: u64 = 0;
    let mut validation_time_ns: u64 = 0;
    let mut queue_time_ns: u64 = 0;
    let mut inference_time_ns: u64 = 0;
    let mut time_per_token_ns: u64 = 0;
    let mut prompt_tokens: u64 = 0;
    let mut generated_tokens: u64 = 0;
    let mut i: usize = 0;
    while i < headers.len()
        invariant
            0 <= i <= headers@.len(),
            spec_header_totals(headers@).compute_characters <= u64::MAX,
            spec_header_totals(headers@).total_time_ns <= u64::MAX,
            spec_header_totals(headers@).validation_time_ns <= u64::MAX,
            spec_header_totals(headers@).queue_time_ns <= u64::MAX,
            spec_header_totals(headers@).inference_time_ns <= u64::MAX,
            spec_header_totals(headers@).time_per_token_ns <= u64::MAX,
            spec_header_totals(headers@).prompt_tokens + spec_header_totals(
                headers@,
            ).generated_tokens <= u64::MAX,
            compute_characters == spec_header_totals(headers@.take(i as int)).compute_characters,
            total_time_ns == spec_header_totals(headers@.take(i as int)).total_time_ns,
            validation_time_ns == spec_header_totals(headers@.take(i as int)).validation_time_ns,
            queue_time_ns == spec_header_totals(headers@.take(i as int)).queue_time_ns,
            inference_time_ns == spec_header_totals(headers@.take(i as int)).inference_time_ns,
            time_per_token_ns == spec_header_totals(headers@.take(i as int)).time_per_token_ns,
            prompt_tokens == spec_header_totals(headers@.take(i as int)).prompt_tokens,
            generated_tokens == spec_header_totals(headers@.take(i as int)).generated_tokens,
        decreases headers@.len() - i,
    {
        proof {
            lemma_totals_prefix_le(headers@, i + 1);
            assert(headers@.take(i + 1).drop_last() =~= headers@.take(i as int));
            assert(headers@.take(i + 1).last() == headers@[i as int]);
        }
        let h = &headers[i];
        compute_characters = compute_characters + (h.compute_characters as u64);
        total_time_ns = total_time_ns + h.timing.total_ns;
        validation_time_ns = validation_time_ns + h.timing.validation_ns;
        queue_time_ns = queue_time_ns + h.timing.queue_ns;
        inference_time_ns = inference_time_ns + h.timing.inference_ns;
        time_per_token_ns = time_per_token_ns + h.timing.time_per_token_ns;
        prompt_tokens = prompt_tokens + (h.prompt_tokens as u64);
        generated_tokens = generated_tokens + (h.generated_tokens as u64);
        i = i + 1;
    }
    proof {
        assert(headers@.take(headers@.len() as int) =~= headers@);
    }
    let usage = Usage {
        prompt_tokens,
        completion_tokens: generated_tokens,
        total_tokens: prompt_tokens + generated_tokens,
    };
    (
        AggregatedHeaders {
            compute_type,
            compute_characters,
            total_time_ns,
            validation_time_ns,
            queue_time_ns,
            inference_time_ns,
            time_per_token_ns,
            prompt_tokens,
            generated_tokens,
        },
        usage,
    )
}

/// The character count reported by each branch of a streaming batch,
/// summed.
pub open spec fn spec_char_total(branches: Seq<(String, u64)>) -> int
    decreases branches.len(),
{
    if branches.len() == 0 {
        0
    } else {
        spec_char_total(branches.drop_last()) + branches.last().1
    }
}

/// Every prefix sum is bounded by the whole sum.
proof fn lemma_char_total_prefix_le(branches: Seq<(String, u64)>, i: int)
    requires
        0 <= i <= branches.len(),
    ensures
        spec_char_total(branches.take(i)) <= spec_char_total(branches),
    decreases branches.len(),
{
    if i == branches.len() {
        assert(branches.take(i) =~= branches);
    } else {
        assert(branches.drop_last().take(i) =~= branches.take(i));
        lemma_char_total_prefix_le(branches.drop_last(), i);
    }
}

/// Reduce the headers of a streaming batch as the branches report in: the
/// first branch's compute type wins for the shared field, the per-branch
/// character counts are summed.
pub fn aggregate_stream_headers(branches: &Vec<(String, u64)>) -> (r: (Option<String>, u64))
    requires
        spec_char_total(branches@) <= u64::MAX,
    ensures
        r.0 == (if branches@.len() > 0 {
            Some(branches@[0].0)
        } else {
            None::<String>
        }),
        r.1 == spec_char_total(branches@),
{
    let compute_type = if branches.len() > 0 {
        Some(branches[0].0.clone())
    } else {
        None
    };
    let mut characters: u64 = 0;
    let mut i: usize = 0;
    while i < branches.len()
        invariant
            0 <= i <= branches@.len(),
            spec_char_total(branches@) <= u64::MAX,
            characters == spec_char_total(branches@.take(i as int)),
        decreases branches@.len() - i,
    {
        proof {
            lemma_char_total_prefix_le(branches@, i + 1);
            assert(branches@.take(i + 1).drop_last() =~= branches@.take(i as int));
            assert(branches@.take(i + 1).last() == branches@[i as int]);
        }
        characters = characters + branches[i].1;
        i = i + 1;
    }
    proof {
        assert(branches@.take(branches@.len() as int) =~= branches@);
    }
    (compute_type, characters)
}

/// One choice of an aggregate completion response, tagged with the index
/// of the prompt it answers.
#[derive(Clone, PartialEq, Eq, Debug)]
pub struct CompletionChoice {
    pub index: u32,
    pub text: String,
    pub finish_reason: String,
}

/// Errors of the aggregation step itself.
#[derive(Clone, Copy, PartialEq, Eq, Structural, Debug)]
pub enum AggregateError {
    /// A branch result arrived without the details the aggregate needs.
    MissingDetails,
}

impl AggregateError {
    /// The human-readable message of this error.
    pub fn message(&self) -> (r: &'static str)
        ensures
            r@ == "No details in generation"@,
    {
        "No details in generation"
    }
}

/// Build the aggregate choices of a multi-prompt completion: one choice
/// per branch, in branch order, each tagged with its original prompt
/// index, carrying that branch's text and its finish reason in the
/// compatibility dialect. Fails when a branch result carries no details.
pub fn build_completion_choices(results: Vec<GenerateResponse>) -> (r: Result<
    Vec<CompletionChoice>,
    AggregateError,
>)
    requires
        results@.len() <= u32::MAX,
    ensures
        r is Ok <==> (forall|j: int|
            0 <= j < results@.len() ==> (#[trigger] results@[j]).details is Some),
        r matches Ok(cs) ==> (cs@.len() == results@.len() && (forall|j: int|
            0 <= j < results@.len() ==> ((#[trigger] cs@[j]).index == j && cs@[j].text
                == results@[j].generated_text && cs@[j].finish_reason@ == spec_finish_reason_format(
                results@[j].details->Some_0.finish_reason,
                true,
            )))),
{
    let ghost results0 = results@;
    let mut remaining = results;
    let mut choices: Vec<CompletionChoice> = Vec::new();
    while remaining.len() != 0
        invariant
            results0 == results@,
            choices@.len() + remaining@.len() == results0.len(),
            results0.len() <= u32::MAX,
            remaining@ == results0.subrange(choices@.len() as int, results0.len() as int),
            forall|k: int| 0 <= k < choices@.len() ==> (#[trigger] results0[k]).details is Some,
            forall|k: int|
                0 <= k < choices@.len() ==> ((#[trigger] choices@[k]).index == k && choices@[k].text
                    == results0[k].generated_text && choices@[k].finish_reason@
                    == spec_finish_reason_format(results0[k].details->Some_0.finish_reason, true)),
        decreases remaining@.len(),
    {
        proof {
            assert(remaining@[0] == results0[choices@.len() as int]);
            assert(remaining@.remove(0) =~= results0.subrange(
                choices@.len() as int + 1,
                results0.len() as int,
            ));
        }
        let next = remaining.remove(0);
        let index = choices.len() as u32;
        match next.details {
            Some(d) => {
                choices.push(
                    CompletionChoice {
                        index,
                        text: next.generated_text,
                        finish_reason: String::from_str(d.finish_reason.format(true)),
                    },
                );
            },
            None => {
                proof {
                    let j = choices@.len() as int;
                    assert((results0[j]).details is None);
                }
                return Err(AggregateError::MissingDetails);
            },
        }
    }
    Ok(choices)
}

} // verus!
