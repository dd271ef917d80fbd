//! Pre-composed input sequences for injecting commands into the
//! terminal's process.
//!
//! The engine only decides *what* bytes to send and in which of two
//! batches; actually writing them, and waiting between the abort and
//! the payload so the shell has redrawn its line, is the caller's I/O
//! concern.

use vstd::prelude::*;
use vstd::string::StrSliceExecFns;
use vstd::string::StringSliceAdditionalSpecFns;
use vstd::utf8::encode_utf8;

verus! {

/// An input sequence to inject into the terminal's process.
#[derive(Debug, Clone)]
pub enum InputSequence {
    /// Raw bytes, sent as they are.  It is very rare to need this:
    /// whatever the user has already typed stays in front of them, and
    /// key encoding and control characters are entirely the caller's
    /// problem.
    Raw(Vec<u8>),
    /// First the equivalent of Ctrl+C to abort the current line, then
    /// the raw bytes.
    AbortAndRaw(Vec<u8>),
    /// First the equivalent of Ctrl+C, then the command followed by a
    /// line break.  The command is not sanitized.
    AbortAndCommand(String),
}

/// The two write batches an input sequence turns into: `immediate`
/// goes out at once; `delayed`, if any, goes out after a short pause
/// that lets the shell process the abort.
#[derive(Debug, Clone)]
pub struct InputPlan {
    pub immediate: Vec<u8>,
    pub delayed: Option<Vec<u8>>,
}

impl InputSequence {
    /// Turns the sequence into its write batches.
    pub fn into_writes(self) -> (r: InputPlan)
        ensures
            match self {
                InputSequence::Raw(bytes) => r.immediate@ == bytes@ && r.delayed is None,
                InputSequence::AbortAndRaw(bytes) => r.immediate@ == seq![3u8] && (r.delayed
                    matches Some(d) && d@ == bytes@),
                InputSequence::AbortAndCommand(command) => r.immediate@ == seq![3u8] && (r.delayed
                    matches Some(d) && d@ == encode_utf8(command@) + seq![10u8]),
            },
    {
        match self {
            InputSequence::Raw(bytes) => InputPlan { immediate: bytes, delayed: None },
            InputSequence::AbortAndRaw(bytes) => {
                let mut abort: Vec<u8> = Vec::new();
                abort.push(3u8);
                proof {
                    assert(abort@ =~= seq![3u8]);
                }
                InputPlan { immediate: abort, delayed: Some(bytes) }
            },
            InputSequence::AbortAndCommand(command) => {
                let mut abort: Vec<u8> = Vec::new();
                abort.push(3u8);
                proof {
                    assert(abort@ =~= seq![3u8]);
                }
                let mut payload = command.as_str().as_bytes_vec();
                payload.push(10u8);
                proof {
                    assert(payload@ =~= encode_utf8(command@) + seq![10u8]);
                }
                InputPlan { immediate: abort, delayed: Some(payload) }
            },
        }
    }
}

} // verus!
