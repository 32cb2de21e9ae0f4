//! Fetching the source file: what to do with the answer of the remote
//! host.
//!
//! The request itself and the writing of the file are the caller's. Here
//! it is decided whether an answer is a file to keep: the body of an answer
//! with a success status is kept byte for byte, everything else is a failed
//! fetch.

use vstd::prelude::*;

verus! {

/// How a request ended.
#[derive(Debug, Clone, PartialEq, Eq)]
pub enum Fetched {
    /// No answer could be had, or its body could not be read.
    Failed,
    /// The host answered with this status code and body.
    Answer { status: u16, body: Vec<u8> },
}

/// Why a fetch gave no file.
#[derive(Debug, Clone, Copy, PartialEq, Eq, Structural)]
pub enum FetchError {
    /// The request failed.
    Request,
    /// The host answered with a status that is no success.
    Status(u16),
}

/// Whether a status code reports success: the codes 200 to 299.
pub open spec fn is_success(status: u16) -> bool {
    200 <= status <= 299
}

/// What a fetch is worth: the body of an answer with a success status,
/// unchanged, and an error for any other answer or none.
pub open spec fn extracted(fetched: Fetched) -> Result<Vec<u8>, FetchError> {
    match fetched {
        Fetched::Failed => Err(FetchError::Request),
        Fetched::Answer { status, body } => if is_success(status) {
            Ok(body)
        } else {
            Err(FetchError::Status(status))
        },
    }
}

/// Decides what to write to the destination: the bytes of the body, as
/// they came, where the host answered with success. On an error nothing is
/// to be written.
pub fn extract(fetched: Fetched) -> (contents: Result<Vec<u8>, FetchError>)
    ensures
        contents == extracted(fetched),
{
    match fetched {
        Fetched::Failed => Err(FetchError::Request),
        Fetched::Answer { status, body } => {
            if 200 <= status && status <= 299 {
                Ok(body)
            } else {
                Err(FetchError::Status(status))
            }
        },
    }
}

} // verus!
