//! Permissive decoding of bytes received from the remote side.

use vstd::prelude::*;
use vstd::utf8::*;

verus! {

/// The text that permissive UTF-8 decoding makes of `bytes`: well-formed
/// sequences decode to their characters, every ill-formed one is replaced.
pub uninterp spec fn lossy_text(bytes: Seq<u8>) -> Seq<char>;

/// Calls `String::from_utf8_lossy`. Trusted: the result is a function of the
/// bytes alone, and bytes that already are well-formed UTF-8 come back as the
/// string they encode.
#[verifier::external_body]
pub(crate) fn decode_lossy(bytes: &[u8]) -> (text: String)
    ensures
        text@ == lossy_text(bytes@),
        valid_utf8(bytes@) ==> encode_utf8(text@) == bytes@,
{
    String::from_utf8_lossy(bytes).into_owned()
}

/// Concatenation of the chunks of `parts`, in order.
pub open spec fn concat<T>(parts: Seq<Seq<T>>) -> Seq<T>
    decreases parts.len(),
{
    if parts.len() == 0 {
        Seq::empty()
    } else {
        concat(parts.drop_last()) + parts.last()
    }
}

/// Encoding distributes over concatenation.
pub proof fn lemma_encode_concat(a: Seq<char>, b: Seq<char>)
    ensures
        encode_utf8(a + b) == encode_utf8(a) + encode_utf8(b),
    decreases a.len(),
{
    if a.len() > 0 {
        assert((a + b).drop_first() =~= a.drop_first() + b);
        lemma_encode_concat(a.drop_first(), b);
    }
}

/// Bytes that permissive decoding hands on intact: the text made of them
/// encodes back to them. Well-formed UTF-8 is of this kind.
pub open spec fn faithful(bytes: Seq<u8>) -> bool {
    encode_utf8(lossy_text(bytes)) == bytes
}

/// The texts that permissive decoding makes of `chunks`, one each.
pub open spec fn lossy_texts(chunks: Seq<Seq<u8>>) -> Seq<Seq<char>> {
    chunks.map_values(|bytes: Seq<u8>| lossy_text(bytes))
}

/// Where every chunk is handed on intact, the decoded texts, put together,
/// encode to the chunks put together.
pub proof fn lemma_faithful_concat(chunks: Seq<Seq<u8>>)
    requires
        forall|i: int| 0 <= i < chunks.len() ==> faithful(#[trigger] chunks[i]),
    ensures
        encode_utf8(concat(lossy_texts(chunks))) == concat(chunks),
    decreases chunks.len(),
{
    if chunks.len() > 0 {
        let texts = lossy_texts(chunks);
        assert(texts.drop_last() =~= lossy_texts(chunks.drop_last()));
        lemma_faithful_concat(chunks.drop_last());
        lemma_encode_concat(concat(texts.drop_last()), texts.last());
    }
}

/// The length of a concatenation is the sum of the lengths of its parts.
pub proof fn lemma_concat_push<T>(parts: Seq<Seq<T>>, part: Seq<T>)
    ensures
        concat(parts.push(part)) == concat(parts) + part,
        concat(parts.push(part)).len() == concat(parts).len() + part.len(),
{
    assert(parts.push(part).drop_last() =~= parts);
}

} // verus!
