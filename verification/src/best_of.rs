//! Best-of-N candidate selection: k independent generations of one prompt
//! are reduced to one primary result plus k - 1 alternates.
//!
//! Which candidate is best is a property the backend reports; this layer
//! only promotes the reported candidate and carries the rest along as
//! alternates, so no scoring rule is invented here.

use vstd::prelude::*;
use crate::events::BackendResponse;
use crate::response::BestOfSequence;
use crate::response::spec_best_of_entry;
use crate::response::spec_best_of_matches;
use crate::stream::spec_output_text;

verus! {

/// Promote the backend-reported best candidate to primary. The remaining
/// candidates are returned as the alternates, in their original order.
pub fn select_best(cands: Vec<BackendResponse>, best_index: usize) -> (r: (
    BackendResponse,
    Vec<BackendResponse>,
))
    requires
        best_index < cands@.len(),
    ensures
        r.0 == cands@[best_index as int],
        r.1@ == cands@.remove(best_index as int),
        r.1@.len() == cands@.len() - 1,
{
    let mut rest = cands;
    let primary = rest.remove(best_index);
    (primary, rest)
}

/// Law: a best-of run over k candidates yields exactly one primary result
/// and k - 1 alternates, and when the full text was requested the prompt
/// is a prefix of the primary's text and of every alternate's text.
pub proof fn lemma_best_of_selection(
    cands: Seq<BackendResponse>,
    best_index: int,
    primary_text: Seq<char>,
    seqs: Seq<BestOfSequence>,
    prompt: String,
)
    requires
        0 <= best_index < cands.len(),
        primary_text == spec_output_text(
            Some(prompt),
            cands[best_index].generated_text.text@,
        ),
        spec_best_of_matches(seqs, cands.remove(best_index), Some(prompt)),
    ensures
        seqs.len() == cands.len() - 1,
        primary_text.len() >= prompt@.len(),
        primary_text.subrange(0, prompt@.len() as int) == prompt@,
        forall|i: int|
            0 <= i < seqs.len() ==> (#[trigger] seqs[i]).generated_text@.len() >= prompt@.len() && (
            seqs[i]).generated_text@.subrange(0, prompt@.len() as int) == prompt@,
{
    assert((prompt@ + cands[best_index].generated_text.text@).subrange(
        0,
        prompt@.len() as int,
    ) =~= prompt@);
    let rest = cands.remove(best_index);
    assert forall|i: int|
        0 <= i < seqs.len() implies (#[trigger] seqs[i]).generated_text@.len() >= prompt@.len() && (
    seqs[i]).generated_text@.subrange(0, prompt@.len() as int) == prompt@ by {
        assert(spec_best_of_entry(seqs[i], rest[i], Some(prompt)));
        assert((prompt@ + rest[i].generated_text.text@).subrange(0, prompt@.len() as int)
            =~= prompt@);
    }
}

} // verus!
