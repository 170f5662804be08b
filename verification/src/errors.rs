//! The ways a resolution attempt can fail.

use vstd::prelude::*;

verus! {

/// Why a resolver could not produce a value.
#[derive(Clone, Copy, Debug, PartialEq, Eq, Structural)]
pub enum EnvError {
    /// The key is absent: no usable line in the key-value file, no entry in
    /// the environment table, or the file itself is missing.
    NotFound,
    /// An underlying stream or file operation failed for a reason other
    /// than absence. The library itself never produces this; callers that
    /// perform the real input use it to report a failed read.
    Io,
    /// The environment holds the key, but its value is not valid text.
    Encoding,
}

} // verus!
