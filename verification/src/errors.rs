use vstd::prelude::*;

verus! {

/// The typed failure conditions of the backup-stream pipeline. Every error is
/// terminal for the whole operation: the pipeline never retries and never
/// recovers per entry.
#[derive(Debug)]
pub enum TwrptarxError {
    /// Failure of the underlying input or output byte transport, or of the
    /// look-ahead buffer pre-fill, with a human-readable description.
    TIO { desc: String },
    /// Failure while parsing container structure, carrying the offending
    /// entry's sequential index.
    TIOTar { index: usize, desc: String },
    /// Failure reported by the decryption provider (malformed ciphertext,
    /// wrong key characteristics, and the like).
    TRoaes { desc: String },
    /// The encryption marker was detected but no key was supplied.
    TMissingKey,
    /// A key was supplied but the input carries no encryption marker.
    TKeyForNonOAES,
    /// The per-entry consumer explicitly rejected an entry.
    CallBackSignalError,
}

} // verus!
