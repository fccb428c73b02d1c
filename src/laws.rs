//! What holds of the file across whole calls.
use crate::appender::{after_call, after_calls, contents_or_empty, Request};
use crate::codec::{decoded, encode, is_encoding, lemma_decoded_encode};
use vstd::prelude::*;

verus! {

/// The requests that a call makes for a valid chunk (open for appending,
/// then write the payload), carried out in turn, leave the file exactly as
/// `after_call` describes.
pub proof fn lemma_requests_make_call(file: Option<Seq<u8>>, text: Seq<char>, payload: Vec<u8>)
    requires
        is_encoding(text),
        payload@ == decoded(text),
    ensures
        Request::Write(payload).on_file(Request::OpenAppend.on_file(file)) == after_call(
            file,
            text,
        ),
{
}

/// Appending the encoding of any bytes to a path where no file is yields a
/// file holding exactly those bytes.
pub proof fn lemma_fresh_path_holds_chunk(bytes: Seq<u8>)
    ensures
        after_call(None, encode(bytes)) == Some(bytes),
{
    lemma_decoded_encode(bytes);
    assert(Seq::<u8>::empty() + bytes =~= bytes);
}

proof fn lemma_calls_append(file: Option<Seq<u8>>, chunks: Seq<Seq<u8>>)
    ensures
        contents_or_empty(after_calls(file, chunks.map_values(|c: Seq<u8>| encode(c))))
            == contents_or_empty(file) + chunks.flatten_alt(),
        chunks.len() > 0 ==> after_calls(file, chunks.map_values(|c: Seq<u8>| encode(c))) is Some,
    decreases chunks.len(),
{
    let texts = chunks.map_values(|c: Seq<u8>| encode(c));
    if chunks.len() == 0 {
        assert(contents_or_empty(file) + chunks.flatten_alt() =~= contents_or_empty(file));
    } else {
        let init = chunks.drop_last();
        lemma_calls_append(file, init);
        assert(texts.drop_last() =~= init.map_values(|c: Seq<u8>| encode(c)));
        lemma_decoded_encode(chunks.last());
        assert(contents_or_empty(file) + chunks.flatten_alt() =~= contents_or_empty(file)
            + init.flatten_alt() + chunks.last());
    }
}

/// Chunks appended one after another to a path where no file was leave the
/// file holding their concatenation, in order.
pub proof fn lemma_serial_chunks_concatenate(chunks: Seq<Seq<u8>>)
    requires
        chunks.len() > 0,
    ensures
        after_calls(None, chunks.map_values(|c: Seq<u8>| encode(c))) == Some(chunks.flatten()),
{
    lemma_calls_append(None, chunks);
    chunks.lemma_flatten_and_flatten_alt_are_equivalent();
    assert(contents_or_empty(None) + chunks.flatten_alt() =~= chunks.flatten());
}

/// A malformed chunk leaves the file as it was: not created if absent, no
/// byte added if present.
pub proof fn lemma_malformed_chunk_leaves_file(file: Option<Seq<u8>>, text: Seq<char>)
    requires
        !is_encoding(text),
    ensures
        after_call(file, text) == file,
{
}

/// The empty chunk is valid and stands for no bytes: the call creates the
/// file if it is absent and leaves its bytes as they were.
pub proof fn lemma_empty_chunk_creates_file(file: Option<Seq<u8>>)
    ensures
        is_encoding(Seq::empty()),
        decoded(Seq::empty()).len() == 0,
        after_call(file, Seq::empty()) == Some(contents_or_empty(file)),
{
    lemma_decoded_encode(Seq::empty());
    assert(encode(Seq::empty()) == Seq::<char>::empty());
    assert(contents_or_empty(file) + Seq::<u8>::empty() =~= contents_or_empty(file));
}

} // verus!
