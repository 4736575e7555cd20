//! What the bytes on the wire mean: lossy UTF-8 decoding of drained chunks,
//! concatenation of a drain in arrival order, and newline framing of answers.
//!
//! A drain is the byte-level picture of one `drain`-style read: the socket is
//! read in fixed-size chunks until a read yields zero bytes (the peer closed,
//! or the idle timeout elapsed).  The functions here take the chunks as plain
//! values and compute the text of the burst; the socket calls themselves are
//! the embedding application's business.

use vstd::prelude::*;
use vstd::string::StringExecFns;
use vstd::utf8::{
    decode_utf8, decode_utf8_split, is_char_boundary, is_char_boundary_iff_is_leading_byte,
    valid_first_scalar, valid_utf8, valid_utf8_concat,
};

verus! {

/// The text that the lossy UTF-8 decoding reads out of the given bytes:
/// invalid sequences are replaced with the replacement character and the
/// valid text around them is kept.  The result is a function of the bytes
/// alone; what it is on given bytes is the business of the decoder, not of
/// any contract here.
pub uninterp spec fn lossy_text(bytes: Seq<u8>) -> Seq<char>;

/// The text one received chunk contributes: its exact UTF-8 decoding when
/// the chunk is valid, and its lossy decoding otherwise.  A decode failure
/// degrades the text instead of failing the drain.
pub open spec fn chunk_text(bytes: Seq<u8>) -> Seq<char> {
    if valid_utf8(bytes) {
        decode_utf8(bytes)
    } else {
        lossy_text(bytes)
    }
}

/// The text of a whole drain: the chunk texts concatenated in arrival order,
/// stopping at the first empty chunk (a zero-byte read ends the drain, and
/// nothing after it belongs to the burst).
pub open spec fn drained_text(chunks: Seq<Seq<u8>>) -> Seq<char>
    decreases chunks.len(),
{
    if chunks.len() == 0 || chunks[0].len() == 0 {
        Seq::empty()
    } else {
        chunk_text(chunks[0]) + drained_text(chunks.drop_first())
    }
}

/// Relies on `String::from_utf8_lossy`: its result depends on the bytes
/// alone (the text named `lossy_text`), and on bytes that already are valid
/// UTF-8 it decodes them exactly, replacing nothing.
#[verifier::external_body]
fn lossy_chunk(bytes: &[u8]) -> (r: String)
    ensures
        r@ == lossy_text(bytes@),
        valid_utf8(bytes@) ==> r@ == decode_utf8(bytes@),
{
    String::from_utf8_lossy(bytes).into_owned()
}

/// Decode one received chunk lossily: valid UTF-8 is read exactly, and
/// invalid sequences degrade to replacement characters with the valid text
/// around them kept, never to a failure of the call.
pub fn decode_chunk(bytes: &[u8]) -> (r: String)
    ensures
        r@ == chunk_text(bytes@),
{
    lossy_chunk(bytes)
}

/// Concatenate the chunks of one drain, in arrival order, into the text of
/// the burst.  Chunks are decoded one by one, as they were read, and the
/// first empty chunk ends the drain: whatever follows it is ignored.
pub fn text_from_chunks(chunks: &Vec<Vec<u8>>) -> (r: String)
    ensures
        r@ == drained_text(chunks.deep_view()),
{
    let ghost all = chunks.deep_view();
    let mut res = String::new();
    let mut i: usize = 0;
    proof {
        assert(all.skip(0) =~= all);
        assert(res@ + drained_text(all) =~= drained_text(all));
    }
    while i < chunks.len()
        invariant
            0 <= i <= chunks.len(),
            all == chunks.deep_view(),
            all.len() == chunks.len(),
            forall|j: int| 0 <= j < i ==> #[trigger] all[j].len() > 0,
            drained_text(all) == res@ + drained_text(all.skip(i as int)),
        decreases chunks.len() - i,
    {
        proof {
            assert(all[i as int] =~= chunks@[i as int]@);
        }
        if chunks[i].len() == 0 {
            proof {
                assert(all.skip(i as int)[0] == all[i as int]);
                assert(drained_text(all.skip(i as int)) == Seq::<char>::empty());
                assert(res@ + Seq::<char>::empty() =~= res@);
            }
            return res;
        }
        let piece = decode_chunk(chunks[i].as_slice());
        proof {
            let rest = all.skip(i as int);
            assert(rest[0] == all[i as int]);
            assert(rest.drop_first() =~= all.skip(i as int + 1));
            assert(drained_text(rest) == chunk_text(all[i as int]) + drained_text(
                all.skip(i as int + 1),
            ));
            assert(res@ + (piece@ + drained_text(all.skip(i as int + 1))) =~= (res@ + piece@)
                + drained_text(all.skip(i as int + 1)));
        }
        res.append(piece.as_str());
        i = i + 1;
    }
    proof {
        assert(all.skip(i as int) =~= Seq::empty());
        assert(drained_text(all.skip(i as int)) == Seq::<char>::empty());
        assert(res@ + Seq::<char>::empty() =~= res@);
    }
    res
}

/// Decoding distributes over concatenation: two byte sequences that are
/// each valid UTF-8 on their own decode, taken together, to the decoding of
/// the first followed by the decoding of the second.
proof fn lemma_decode_utf8_concat(b1: Seq<u8>, b2: Seq<u8>)
    requires
        valid_utf8(b1),
        valid_utf8(b2),
    ensures
        valid_utf8(b1 + b2),
        decode_utf8(b1 + b2) == decode_utf8(b1) + decode_utf8(b2),
{
    valid_utf8_concat(b1, b2);
    let all = b1 + b2;
    let k = b1.len() as int;
    if b2.len() == 0 {
        assert(all =~= b1);
        assert(decode_utf8(b2) =~= Seq::<char>::empty());
        assert(decode_utf8(b1) + decode_utf8(b2) =~= decode_utf8(b1));
    } else {
        assert(all[k] == b2[0]);
        assert(valid_first_scalar(b2));
        is_char_boundary_iff_is_leading_byte(all, k);
        assert(is_char_boundary(all, k));
        decode_utf8_split(all, k);
        assert(all.subrange(0, k) =~= b1);
        assert(all.subrange(k, all.len() as int) =~= b2);
        assert(decode_utf8(all) =~= decode_utf8(b1) + decode_utf8(b2));
    }
}

/// A burst received in several chunks loses nothing: as long as no chunk is
/// empty and each chunk is valid UTF-8 on its own, the chunked drain
/// concatenates the pieces in arrival order into the very text that one
/// single read of all the bytes at once would have produced.
pub proof fn lemma_chunked_drain_reads_whole(chunks: Seq<Seq<u8>>)
    requires
        forall|i: int| 0 <= i < chunks.len() ==> #[trigger] chunks[i].len() > 0,
        forall|i: int| 0 <= i < chunks.len() ==> valid_utf8(#[trigger] chunks[i]),
    ensures
        valid_utf8(chunks.flatten()),
        drained_text(chunks) == chunk_text(chunks.flatten()),
        drained_text(chunks) == drained_text(seq![chunks.flatten()]),
    decreases chunks.len(),
{
    if chunks.len() == 0 {
        assert(chunks.flatten() =~= Seq::<u8>::empty());
        assert(chunk_text(chunks.flatten()) =~= Seq::<char>::empty());
    } else {
        let rest = chunks.drop_first();
        assert forall|i: int| 0 <= i < rest.len() implies #[trigger] rest[i].len() > 0
            && valid_utf8(rest[i]) by {
            assert(rest[i] == chunks[i + 1]);
        }
        lemma_chunked_drain_reads_whole(rest);
        lemma_decode_utf8_concat(chunks[0], rest.flatten());
        assert(chunks.flatten() == chunks[0] + rest.flatten());
        assert(drained_text(chunks) == chunk_text(chunks[0]) + drained_text(rest));
    }
    let flat = chunks.flatten();
    if flat.len() == 0 {
        assert(drained_text(seq![flat]) == Seq::<char>::empty());
        assert(chunk_text(flat) =~= Seq::<char>::empty());
    } else {
        assert(seq![flat].drop_first() =~= Seq::<Seq<u8>>::empty());
        assert(drained_text(seq![flat]) == chunk_text(flat) + drained_text(
            Seq::<Seq<u8>>::empty(),
        ));
        assert(chunk_text(flat) + Seq::<char>::empty() =~= chunk_text(flat));
    }
}

/// Frame one answer for the wire: the answer's own characters, verbatim,
/// followed by exactly one `'\n'` terminator.  An answer that already ends
/// in a newline still gets one more; nothing is trimmed or deduplicated.
pub fn frame_answer(answer: &str) -> (r: String)
    ensures
        r@ == answer@.push('\n'),
{
    let mut r = answer.to_owned();
    r.append("\n");
    proof {
        reveal_strlit("\n");
        assert(r@ =~= answer@.push('\n'));
    }
    r
}

} // verus!
