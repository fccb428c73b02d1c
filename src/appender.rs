//! The chunk appender: one call decodes a chunk, asks the host to open the
//! file (create if absent, never truncate, write at the end), asks it to
//! write the decoded bytes, and replies. The decisions are made here; the
//! host carries out each request and reports how it went.
use crate::codec::{decode_chunk, decoded, is_encoding};
use crate::error::ChunkError;
use vstd::prelude::*;

verus! {

/// What the appender asks of the host next.
pub enum Request {
    /// Open the file for appending, creating it if it is absent.
    OpenAppend,
    /// Write all of these bytes at the end of the opened file.
    Write(Vec<u8>),
    /// The call is over: hand this result back to the caller.
    Reply(Result<(), ChunkError>),
}

/// How the host's last request went.
pub enum Event {
    Succeeded,
    /// It failed, with the system's message.
    Failed(String),
}

/// Where a call stands.
#[derive(PartialEq, Eq, Structural, Clone, Copy, Debug)]
pub enum Phase {
    Opening,
    Writing,
    Finished,
}

/// The state of one append call.
pub struct ChunkAppender {
    pub phase: Phase,
    /// The decoded chunk, waiting to be written.
    pub payload: Vec<u8>,
}

/// The bytes of a file that may be absent; an absent file reads as empty.
pub open spec fn contents_or_empty(file: Option<Seq<u8>>) -> Seq<u8> {
    match file {
        Some(c) => c,
        None => Seq::empty(),
    }
}

impl Request {
    /// The file (absent, or present with its bytes) after the host has
    /// carried out this request successfully.
    pub open spec fn on_file(&self, file: Option<Seq<u8>>) -> Option<Seq<u8>> {
        match self {
            Request::OpenAppend => Some(contents_or_empty(file)),
            Request::Write(bytes) => Some(contents_or_empty(file) + bytes@),
            Request::Reply(_) => file,
        }
    }
}

/// The file after one call with the chunk `text` in which every request to
/// the host succeeded: a malformed chunk leaves it as it was; a valid one
/// creates it if needed and appends the decoded bytes.
pub open spec fn after_call(file: Option<Seq<u8>>, text: Seq<char>) -> Option<Seq<u8>> {
    if is_encoding(text) {
        Some(contents_or_empty(file) + decoded(text))
    } else {
        file
    }
}

/// The file after a series of calls, made one after another, with these
/// chunks.
pub open spec fn after_calls(file: Option<Seq<u8>>, texts: Seq<Seq<char>>) -> Option<Seq<u8>>
    decreases texts.len(),
{
    if texts.len() == 0 {
        file
    } else {
        after_call(after_calls(file, texts.drop_last()), texts.last())
    }
}

impl ChunkAppender {
    /// Starts a call with the chunk `text`.
    ///
    /// A canonical chunk is decoded and the host is asked to open the file;
    /// a malformed one ends the call at once with a decode error, before any
    /// request touches the file.
    pub fn begin(text: &str) -> (r: (ChunkAppender, Request))
        ensures
            is_encoding(text@) ==> {
                &&& r.0.phase == Phase::Opening
                &&& r.0.payload@ == decoded(text@)
                &&& r.1 is OpenAppend
            },
            !is_encoding(text@) ==> {
                &&& r.0.phase == Phase::Finished
                &&& r.1 matches Request::Reply(Err(e))
                &&& e is Decode
                &&& e.text().len() > 0
            },
    {
        match decode_chunk(text) {
            Ok(payload) => (ChunkAppender { phase: Phase::Opening, payload }, Request::OpenAppend),
            Err(e) => (
                ChunkAppender { phase: Phase::Finished, payload: Vec::new() },
                Request::Reply(Err(e)),
            ),
        }
    }

    /// Whether the call is over, so that no request is pending.
    pub fn is_finished(&self) -> (r: bool)
        ensures
            r == (self.phase == Phase::Finished),
    {
        self.phase == Phase::Finished
    }

    /// Takes the outcome of the pending request and says what comes next.
    ///
    /// Once the file is open the payload is written; a failed open or write
    /// ends the call with an I/O error carrying the system's message, and no
    /// further request is made; a completed write ends it successfully.
    pub fn on_event(&mut self, event: Event) -> (r: Request)
        requires
            old(self).phase != Phase::Finished,
        ensures
            final(self).phase == Phase::Finished <==> r is Reply,
            old(self).phase == Phase::Opening && event is Succeeded ==> {
                &&& final(self).phase == Phase::Writing
                &&& r matches Request::Write(bytes)
                &&& bytes@ == old(self).payload@
            },
            old(self).phase == Phase::Writing && event is Succeeded ==> r matches Request::Reply(
                Ok(_),
            ),
            event matches Event::Failed(m) ==> {
                &&& r matches Request::Reply(Err(e))
                &&& e is Io
                &&& e.text() == m@
            },
    {
        match event {
            Event::Succeeded => {
                if self.phase == Phase::Opening {
                    self.phase = Phase::Writing;
                    let mut bytes: Vec<u8> = Vec::new();
                    std::mem::swap(&mut bytes, &mut self.payload);
                    Request::Write(bytes)
                } else {
                    self.phase = Phase::Finished;
                    Request::Reply(Ok(()))
                }
            },
            Event::Failed(m) => {
                self.phase = Phase::Finished;
                Request::Reply(Err(ChunkError::Io(m)))
            },
        }
    }
}

} // verus!
