//! Error kinds of the keystore.

use vstd::prelude::*;

verus! {

/// What can go wrong while specifications are validated, shares recovered or
/// certificates issued.
#[derive(Clone, Copy, Debug, PartialEq, Eq, Structural)]
pub enum HsmError {
    /// A batch of specifications was expected but the path is no directory.
    BadSpecDirectory,
    /// A domain field does not name a domain of the device.
    BadDomain,
    /// A label does not fit the device's label field.
    BadLabel,
    /// The purpose of a key does not allow the requested operation.
    BadPurpose,
    /// The signing engine failed to issue a certificate.
    CertGenFail,
    /// The signing engine failed to self-certify a key.
    SelfCertGenFail,
    /// The device firmware does not offer what the keystore needs.
    Version,
    /// Fewer shares were supplied than the threshold asks for.
    InsufficientShares,
    /// A supplied share does not match the commitments.
    VerificationFailed,
    /// The shares could not be combined into a key.
    ReconstructionFailed,
}

impl HsmError {
    /// The text of this error as a sequence of characters.
    pub open spec fn text(self) -> Seq<char> {
        match self {
            HsmError::BadSpecDirectory => "path not a directory"@,
            HsmError::BadDomain => "failed conversion from YubiHSM Domain"@,
            HsmError::BadLabel => "failed conversion from YubiHSM Label"@,
            HsmError::BadPurpose => "Invalid purpose for root CA key"@,
            HsmError::CertGenFail => "failed to generate certificate"@,
            HsmError::SelfCertGenFail => "failed to create self signed cert for key"@,
            HsmError::Version => "your yubihms is broke"@,
            HsmError::InsufficientShares => "not enough shares to recover the key"@,
            HsmError::VerificationFailed => "a share failed verification"@,
            HsmError::ReconstructionFailed => "failed to reconstruct the key from shares"@,
        }
    }

    /// The text shown to the operator for this error.
    pub fn message(&self) -> (s: String)
        ensures
            s@ == self.text(),
    {
        match self {
            HsmError::BadSpecDirectory => String::from_str("path not a directory"),
            HsmError::BadDomain => String::from_str("failed conversion from YubiHSM Domain"),
            HsmError::BadLabel => String::from_str("failed conversion from YubiHSM Label"),
            HsmError::BadPurpose => String::from_str("Invalid purpose for root CA key"),
            HsmError::CertGenFail => String::from_str("failed to generate certificate"),
            HsmError::SelfCertGenFail => String::from_str(
                "failed to create self signed cert for key",
            ),
            HsmError::Version => String::from_str("your yubihms is broke"),
            HsmError::InsufficientShares => String::from_str(
                "not enough shares to recover the key",
            ),
            HsmError::VerificationFailed => String::from_str("a share failed verification"),
            HsmError::ReconstructionFailed => String::from_str(
                "failed to reconstruct the key from shares",
            ),
        }
    }
}

} // verus!
