use vstd::prelude::*;

verus! {

/// Why a chunk could not be appended.
pub enum ChunkError {
    /// The chunk is not valid standard base64; the text describes the fault.
    Decode(String),
    /// The file could not be opened or written; the text is the system's message.
    Io(String),
}

impl ChunkError {
    /// The diagnostic carried by the error.
    pub open spec fn text(&self) -> Seq<char> {
        match self {
            ChunkError::Decode(m) => m@,
            ChunkError::Io(m) => m@,
        }
    }

    /// Hands the diagnostic over as the plain string that the host reports.
    pub fn into_message(self) -> (r: String)
        ensures
            r@ == self.text(),
    {
        match self {
            ChunkError::Decode(m) => m,
            ChunkError::Io(m) => m,
        }
    }
}

} // verus!
