//! Turning a tokenized input into client-facing simple tokens: each token
//! id is paired with the byte range it covers in the input and the text
//! those bytes decode to.
//!
//! The tokenizer itself lives outside this crate; what it reports enters
//! as plain values: the token ids and their byte offsets.

use vstd::prelude::*;

verus! {

/// The tokenized form of one input, as this layer reads it: the token ids
/// and the byte range of the input that each token covers.
#[derive(Clone, PartialEq, Eq, Debug)]
pub struct Encoding {
    pub ids: Vec<u32>,
    pub offsets: Vec<(usize, usize)>,
}

/// One token of a tokenize response: its id, the text it covers, and the
/// covered byte range.
#[derive(Clone, PartialEq, Eq, Debug)]
pub struct SimpleToken {
    pub id: u32,
    pub text: String,
    pub start: usize,
    pub stop: usize,
}

/// The characters that `String::from_utf8_lossy` decodes a byte sequence
/// to. The result depends on the bytes alone.
pub uninterp spec fn utf8_lossy_of(bytes: Seq<u8>) -> Seq<char>;

/// Relies on String::from_utf8_lossy: the decoding is a function of the
/// bytes alone, and no bytes decode to no characters.
#[verifier::external_body]
fn bytes_to_string_lossy(bytes: &Vec<u8>) -> (r: String)
    ensures
        r@ == utf8_lossy_of(bytes@),
        bytes@.len() == 0 ==> r@.len() == 0,
{
    String::from_utf8_lossy(bytes).into_owned()
}

/// The bytes of the input that a token's offset range covers, clipped to
/// the input: from `start` to `stop`, both clamped to the input's length.
pub open spec fn spec_token_slice(input: Seq<u8>, start: int, stop: int) -> Seq<u8> {
    let end = if stop < input.len() {
        stop
    } else {
        input.len() as int
    };
    let lo = if start < end {
        start
    } else {
        end
    };
    input.subrange(lo, end)
}

/// Pair every token id with the text its byte range covers. Accepts any
/// encoding: when the tokenizer reports as many offsets as ids, each token
/// carries its range and the text those input bytes decode to, with ranges
/// past the input clipped to it and inverted ranges covering nothing;
/// otherwise the ids are returned bare, with empty text and a zero range.
pub fn encoding_to_tokens(encoding: &Encoding, input: &Vec<u8>) -> (out: Vec<SimpleToken>)
    ensures
        out@.len() == encoding.ids@.len(),
        forall|i: int| 0 <= i < out@.len() ==> (#[trigger] out@[i]).id == encoding.ids@[i],
        encoding.offsets@.len() == encoding.ids@.len() ==> (forall|i: int|
            0 <= i < out@.len() ==> ((#[trigger] out@[i]).start == encoding.offsets@[i].0
                && out@[i].stop == encoding.offsets@[i].1 && out@[i].text@ == utf8_lossy_of(
                spec_token_slice(
                    input@,
                    encoding.offsets@[i].0 as int,
                    encoding.offsets@[i].1 as int,
                ),
            ))),
        encoding.offsets@.len() != encoding.ids@.len() ==> (forall|i: int|
            0 <= i < out@.len() ==> ((#[trigger] out@[i]).start == 0 && out@[i].stop == 0
                && out@[i].text@.len() == 0)),
{
    let mut out: Vec<SimpleToken> = Vec::new();
    if encoding.offsets.len() == encoding.ids.len() {
        let mut i: usize = 0;
        while i < encoding.ids.len()
            invariant
                0 <= i <= encoding.ids@.len(),
                encoding.offsets@.len() == encoding.ids@.len(),
                out@.len() == i,
                forall|k: int| 0 <= k < i ==> (#[trigger] out@[k]).id == encoding.ids@[k],
                forall|k: int|
                    0 <= k < i ==> ((#[trigger] out@[k]).start == encoding.offsets@[k].0
                        && out@[k].stop == encoding.offsets@[k].1 && out@[k].text@
                        == utf8_lossy_of(
                        spec_token_slice(
                            input@,
                            encoding.offsets@[k].0 as int,
                            encoding.offsets@[k].1 as int,
                        ),
                    )),
            decreases encoding.ids@.len() - i,
        {
            let (start, stop) = encoding.offsets[i];
            let end = if stop < input.len() {
                stop
            } else {
                input.len()
            };
            let lo = if start < end {
                start
            } else {
                end
            };
            let mut bytes: Vec<u8> = Vec::new();
            let mut j: usize = lo;
            while j < end
                invariant
                    lo <= j <= end,
                    end <= input@.len(),
                    bytes@ == input@.subrange(lo as int, j as int),
                decreases end - j,
            {
                bytes.push(input[j]);
                proof {
                    assert(bytes@ =~= input@.subrange(lo as int, j as int + 1));
                }
                j = j + 1;
            }
            proof {
                assert(bytes@ =~= spec_token_slice(input@, start as int, stop as int));
            }
            let text = bytes_to_string_lossy(&bytes);
            out.push(SimpleToken { id: encoding.ids[i], text, start, stop });
            i = i + 1;
        }
    } else {
        let mut i: usize = 0;
        while i < encoding.ids.len()
            invariant
                0 <= i <= encoding.ids@.len(),
                out@.len() == i,
                forall|k: int| 0 <= k < i ==> (#[trigger] out@[k]).id == encoding.ids@[k],
                forall|k: int|
                    0 <= k < i ==> ((#[trigger] out@[k]).start == 0 && out@[k].stop == 0
                        && out@[k].text@.len() == 0),
            decreases encoding.ids@.len() - i,
        {
            out.push(SimpleToken { id: encoding.ids[i], text: String::new(), start: 0, stop: 0 });
            i = i + 1;
        }
    }
    out
}

} // verus!
