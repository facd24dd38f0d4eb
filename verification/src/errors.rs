use vstd::prelude::*;

verus! {

/// Why verification of a proof artifact failed. Every failure is terminal:
/// all inputs are deterministic, so no error here is ever retried.
#[derive(Clone, Copy, Debug, PartialEq, Eq, Structural)]
pub enum VerifyError {
    /// The notary's public key could not be obtained or decoded.
    KeyResolutionFailed,
    /// The notary signature over the session header does not verify.
    InvalidSignature,
    /// The certificate chain does not lead to a trusted root at the attested time.
    InvalidCertificateChain,
    /// The chain is valid but not for the server name recorded in the session.
    HostnameMismatch,
    /// A disclosed range's opening is inconsistent with the attested commitment.
    CommitmentMismatch,
    /// Two disclosed ranges of the same direction overlap.
    OverlappingRanges,
    /// A disclosed range does not lie within the attested transcript length.
    RangeOutOfBounds,
    /// The artifact itself is malformed; reported before any cryptographic step.
    MalformedProof,
}

} // verus!
