//! The single error taxonomy of the library.

use vstd::prelude::*;

verus! {

/// Result type used across the library.
pub type Result<T> = core::result::Result<T, ZKMTDError>;

/// Everything that can go wrong structurally. Adversarial verification
/// outcomes (tampering, stale epochs) are reported as `false`, not as errors.
#[derive(Debug, Clone, PartialEq, Eq)]
pub enum ZKMTDError {
    ProofGenerationFailed { reason: String },
    VerificationFailed { reason: String },
    InvalidProof,
    InvalidWitness { reason: String },
    InvalidPublicInputs { reason: String },
    MTDError { reason: String },
    InvalidEpoch { current: u64, reason: String },
    EntropyError { reason: String },
    BatchError { reason: String },
    MerkleError { reason: String },
    ConfigurationError { reason: String },
    SerializationError { reason: String },
    UnsupportedFeature { feature: String },
    ResourceLimitExceeded { reason: String },
    InternalError { reason: String },
}

/// The decimal digit for `d < 10`.
pub open spec fn digit_char(d: nat) -> char {
    if d == 0 { '0' }
    else if d == 1 { '1' }
    else if d == 2 { '2' }
    else if d == 3 { '3' }
    else if d == 4 { '4' }
    else if d == 5 { '5' }
    else if d == 6 { '6' }
    else if d == 7 { '7' }
    else if d == 8 { '8' }
    else { '9' }
}

/// Decimal rendering of an unsigned integer without leading zeros.
pub open spec fn decimal_digits(n: nat) -> Seq<char>
    decreases n,
{
    if n < 10 {
        seq![digit_char(n)]
    } else {
        decimal_digits(n / 10).push(digit_char(n % 10))
    }
}

/// Decimal rendering of a `u64`, as `u64::to_string` gives it.
pub open spec fn decimal_of(n: u64) -> Seq<char> {
    decimal_digits(n as nat)
}

/// Relies on std's `format!("{}{}", ..)`: the result is the two texts one after the other.
#[verifier::external_body]
pub(crate) fn join_text(head: &str, tail: &str) -> (r: String)
    ensures
        r@ == head@ + tail@,
{
    format!("{}{}", head, tail)
}

/// Relies on `u64::to_string` (std's `Display` for `u64`): the decimal digits of `n`,
/// most significant first, without leading zeros.
#[verifier::external_body]
pub(crate) fn u64_text(n: u64) -> (r: String)
    ensures
        r@ == decimal_of(n),
{
    n.to_string()
}

impl ZKMTDError {
    /// The human-readable message of this error: a fixed prefix for the kind,
    /// followed by the carried reason.
    pub fn to_string(&self) -> (r: String)
        ensures
            self is InvalidProof ==> r@ == "Invalid proof"@,
            self is MTDError ==> r@ == "MTD error: "@ + self->MTDError_reason@,
            self is InvalidEpoch ==> r@ == "Invalid epoch (current: "@ + decimal_of(
                self->InvalidEpoch_current,
            ) + "): "@ + self->InvalidEpoch_reason@,
    {
        match self {
            ZKMTDError::ProofGenerationFailed { reason } => join_text(
                "Proof generation failed: ",
                reason.as_str(),
            ),
            ZKMTDError::VerificationFailed { reason } => join_text(
                "Proof verification failed: ",
                reason.as_str(),
            ),
            ZKMTDError::InvalidProof => "Invalid proof".to_owned(),
            ZKMTDError::InvalidWitness { reason } => join_text(
                "Invalid witness data: ",
                reason.as_str(),
            ),
            ZKMTDError::InvalidPublicInputs { reason } => join_text(
                "Invalid public inputs: ",
                reason.as_str(),
            ),
            ZKMTDError::MTDError { reason } => join_text("MTD error: ", reason.as_str()),
            ZKMTDError::InvalidEpoch { current, reason } => {
                let digits = u64_text(*current);
                let head = join_text("Invalid epoch (current: ", digits.as_str());
                let head = join_text(head.as_str(), "): ");
                join_text(head.as_str(), reason.as_str())
            },
            ZKMTDError::EntropyError { reason } => join_text("Entropy error: ", reason.as_str()),
            ZKMTDError::BatchError { reason } => join_text(
                "Batch processing error: ",
                reason.as_str(),
            ),
            ZKMTDError::MerkleError { reason } => join_text(
                "Merkle tree error: ",
                reason.as_str(),
            ),
            ZKMTDError::ConfigurationError { reason } => join_text(
                "Configuration error: ",
                reason.as_str(),
            ),
            ZKMTDError::SerializationError { reason } => join_text(
                "Serialization error: ",
                reason.as_str(),
            ),
            ZKMTDError::UnsupportedFeature { feature } => join_text(
                "Unsupported feature: ",
                feature.as_str(),
            ),
            ZKMTDError::ResourceLimitExceeded { reason } => join_text(
                "Resource limit exceeded: ",
                reason.as_str(),
            ),
            ZKMTDError::InternalError { reason } => join_text("Internal error: ", reason.as_str()),
        }
    }
}

} // verus!
