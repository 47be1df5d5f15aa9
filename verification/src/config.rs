//! Specifications of keys and of signing requests, as the ceremony reads
//! them from its input files.

use vstd::prelude::*;
use crate::device::{domain_at, domain_bit, label_accepted, label_fits};
use crate::error::HsmError;
use crate::text::{ends_with, has_suffix};

verus! {

/// Ending of the name of a file that specifies a key.
pub const KEYSPEC_EXT: &'static str = ".keyspec.json";

/// Ending of the name of a file that holds a certificate signing request.
pub const CSRSPEC_EXT: &'static str = ".csrspec.json";

/// Ending of the name of a file that holds a delegated signing request.
pub const DCSRSPEC_EXT: &'static str = ".dcsrspec.json";

/// What a key is for.
#[derive(Clone, Copy, Debug, PartialEq, Eq, Structural)]
pub enum Purpose {
    /// Root of the authority that signs production code-signing keys.
    ProductionCodeSigningCA,
    /// Root of the authority that signs development code-signing keys.
    DevelopmentCodeSigningCA,
    /// A key that signs production code.
    ProductionCodeSigning,
    /// A key that signs development code.
    DevelopmentCodeSigning,
    /// Root of the authority that signs device identities.
    Identity,
}

impl Purpose {
    /// Whether a certificate authority may be founded on a key of this
    /// purpose.
    pub open spec fn is_ca_eligible(self) -> bool {
        self is ProductionCodeSigningCA || self is DevelopmentCodeSigningCA || self is Identity
    }

    /// The purpose of the certificates that an authority of this purpose
    /// issues, if it issues any.
    pub open spec fn leaf(self) -> Option<Purpose> {
        match self {
            Purpose::ProductionCodeSigningCA => Some(Purpose::ProductionCodeSigning),
            Purpose::DevelopmentCodeSigningCA => Some(Purpose::DevelopmentCodeSigning),
            Purpose::Identity => Some(Purpose::Identity),
            _ => None,
        }
    }

    /// The name of the section of certificate extensions for this purpose.
    pub open spec fn section(self) -> Seq<char> {
        match self {
            Purpose::ProductionCodeSigningCA => "v3_code_signing_prod_ca"@,
            Purpose::DevelopmentCodeSigningCA => "v3_code_signing_dev_ca"@,
            Purpose::ProductionCodeSigning => "v3_code_signing_prod"@,
            Purpose::DevelopmentCodeSigning => "v3_code_signing_dev"@,
            Purpose::Identity => "v3_identity"@,
        }
    }

    /// Whether a certificate authority may be founded on a key of this
    /// purpose.
    pub fn ca_eligible(&self) -> (r: bool)
        ensures
            r == self.is_ca_eligible(),
            r == self.leaf().is_some(),
    {
        match self {
            Purpose::ProductionCodeSigningCA
            | Purpose::DevelopmentCodeSigningCA
            | Purpose::Identity => true,
            _ => false,
        }
    }

    /// The purpose of the certificates that an authority of this purpose
    /// issues. A key that is itself for signing has none.
    pub fn leaf_purpose(&self) -> (r: Result<Purpose, HsmError>)
        ensures
            match r {
                Ok(p) => self.leaf() == Some(p),
                Err(e) => self.leaf() is None && e == HsmError::BadPurpose,
            },
    {
        match self {
            Purpose::ProductionCodeSigningCA => Ok(Purpose::ProductionCodeSigning),
            Purpose::DevelopmentCodeSigningCA => Ok(Purpose::DevelopmentCodeSigning),
            Purpose::Identity => Ok(Purpose::Identity),
            _ => Err(HsmError::BadPurpose),
        }
    }

    /// The name of the section of certificate extensions for this purpose.
    pub fn extension_section(&self) -> (r: &'static str)
        ensures
            r@ == self.section(),
    {
        match self {
            Purpose::ProductionCodeSigningCA => "v3_code_signing_prod_ca",
            Purpose::DevelopmentCodeSigningCA => "v3_code_signing_dev_ca",
            Purpose::ProductionCodeSigning => "v3_code_signing_prod",
            Purpose::DevelopmentCodeSigning => "v3_code_signing_dev",
            Purpose::Identity => "v3_identity",
        }
    }
}

/// The digest that an authority signs with.
#[derive(Clone, Copy, Debug, PartialEq, Eq, Structural)]
pub enum Digest {
    /// SHA-256.
    Sha256,
    /// SHA-384.
    Sha384,
}

impl Digest {
    /// The name of the digest as the signing engine's configuration has it.
    pub open spec fn name(self) -> Seq<char> {
        match self {
            Digest::Sha256 => "Sha256"@,
            Digest::Sha384 => "Sha384"@,
        }
    }

    /// The name of the digest as the signing engine's configuration has it.
    pub fn digest_name(&self) -> (r: &'static str)
        ensures
            r@ == self.name(),
    {
        match self {
            Digest::Sha256 => "Sha256",
            Digest::Sha384 => "Sha384",
        }
    }
}

/// The kind of an input file, told by the ending of its name.
#[derive(Clone, Copy, Debug, PartialEq, Eq, Structural)]
pub enum SpecKind {
    /// The file specifies a key.
    Key,
    /// The file holds a certificate signing request.
    Csr,
    /// The file holds a delegated signing request.
    Dcsr,
}

/// The kind of the file with a given name, if its ending is a known one.
pub open spec fn kind_of(name: Seq<char>) -> Option<SpecKind> {
    if has_suffix(name, CSRSPEC_EXT@) {
        Some(SpecKind::Csr)
    } else if has_suffix(name, DCSRSPEC_EXT@) {
        Some(SpecKind::Dcsr)
    } else if has_suffix(name, KEYSPEC_EXT@) {
        Some(SpecKind::Key)
    } else {
        None
    }
}

/// Tells the kind of an input file by the ending of its name.
pub fn spec_kind(name: &str) -> (r: Option<SpecKind>)
    ensures
        r == kind_of(name@),
{
    if ends_with(name, CSRSPEC_EXT) {
        Some(SpecKind::Csr)
    } else if ends_with(name, DCSRSPEC_EXT) {
        Some(SpecKind::Dcsr)
    } else if ends_with(name, KEYSPEC_EXT) {
        Some(SpecKind::Key)
    } else {
        None
    }
}

/// The names among a list that end with a given ending, in their order.
pub open spec fn names_with_ext(names: Seq<Seq<char>>, ext: Seq<char>) -> Seq<Seq<char>> {
    names.filter(|name: Seq<char>| has_suffix(name, ext))
}

/// The views of a list of texts.
pub open spec fn texts_of(items: Seq<String>) -> Seq<Seq<char>> {
    items.map_values(|s: String| s@)
}

/// Picks from the names found in a directory those that end with a given
/// ending, in the order in which they were found.
pub fn files_with_ext(names: &Vec<String>, ext: &str) -> (r: Vec<String>)
    ensures
        texts_of(r@) == names_with_ext(texts_of(names@), ext@),
{
    let mut out: Vec<String> = Vec::new();
    let mut i: usize = 0;
    let ghost all = texts_of(names@);
    let ghost keep = |name: Seq<char>| has_suffix(name, ext@);
    proof {
        reveal(Seq::filter);
        assert(all.take(0) =~= Seq::<Seq<char>>::empty());
        assert(texts_of(out@) =~= all.take(0).filter(keep));
    }
    while i < names.len()
        invariant
            i <= names.len(),
            all == texts_of(names@),
            keep == (|name: Seq<char>| has_suffix(name, ext@)),
            texts_of(out@) == all.take(i as int).filter(keep),
        decreases names.len() - i,
    {
        let name: &String = &names[i];
        proof {
            reveal(Seq::filter);
            assert(all.take(i + 1).drop_last() =~= all.take(i as int));
            assert(all.take(i + 1).last() == name@);
        }
        if ends_with(name.as_str(), ext) {
            let ghost before = texts_of(out@);
            out.push(name.clone());
            assert(texts_of(out@) =~= before.push(name@));
        }
        i = i + 1;
    }
    proof {
        assert(all.take(names.len() as int) =~= all);
    }
    out
}

/// The algorithm of an asymmetric key.
#[derive(Clone, Copy, Debug, PartialEq, Eq, Structural)]
pub enum KeyAlgorithm {
    /// RSA with a modulus of 2048 bits.
    Rsa2048,
    /// RSA with a modulus of 3072 bits.
    Rsa3072,
    /// RSA with a modulus of 4096 bits.
    Rsa4096,
    /// Ed25519.
    Ed25519,
    /// NIST P-224.
    EcP224,
    /// NIST P-256.
    EcP256,
    /// NIST P-384.
    EcP384,
    /// NIST P-521.
    EcP521,
    /// secp256k1.
    EcK256,
    /// brainpool256r1.
    EcBp256,
    /// brainpool384r1.
    EcBp384,
    /// brainpool512r1.
    EcBp512,
}

/// The description of a key to create in the device.
#[derive(Debug, PartialEq, Eq)]
pub struct KeySpec {
    common_name: String,
    id: u16,
    algorithm: KeyAlgorithm,
    capabilities: u64,
    domain: u16,
    hash: Digest,
    label: String,
    purpose: Purpose,
}

/// The error that the fields of a key specification call for, if any: a
/// label that does not fit comes before a domain that does not exist.
pub open spec fn key_spec_fault(label: Seq<char>, domain: nat) -> Option<HsmError> {
    if !label_fits(label) {
        Some(HsmError::BadLabel)
    } else if domain_bit(domain) is None {
        Some(HsmError::BadDomain)
    } else {
        None
    }
}

impl KeySpec {
    #[verifier::type_invariant]
    spec fn well_formed(self) -> bool {
        &&& label_fits(self.label@)
        &&& exists|n: nat| domain_bit(n) == Some(self.domain)
    }

    /// The name that certificates for the key carry.
    pub closed spec fn spec_common_name(&self) -> Seq<char> {
        self.common_name@
    }

    /// The object id of the key.
    pub closed spec fn spec_id(&self) -> u16 {
        self.id
    }

    /// The algorithm of the key.
    pub closed spec fn spec_algorithm(&self) -> KeyAlgorithm {
        self.algorithm
    }

    /// What the key may be used for in the device, as a bit set.
    pub closed spec fn spec_capabilities(&self) -> u64 {
        self.capabilities
    }

    /// The domain of the key, as a bit set of one bit.
    pub closed spec fn spec_domain(&self) -> u16 {
        self.domain
    }

    /// The digest that goes with the key.
    pub closed spec fn spec_hash(&self) -> Digest {
        self.hash
    }

    /// The label of the key.
    pub closed spec fn spec_label(&self) -> Seq<char> {
        self.label@
    }

    /// What the key is for.
    pub closed spec fn spec_purpose(&self) -> Purpose {
        self.purpose
    }

    /// Takes the fields read from a file as a key specification, if the
    /// label fits the device and the domain is one of the device's.
    pub fn new(
        common_name: &str,
        id: u16,
        algorithm: KeyAlgorithm,
        capabilities: u64,
        domain: usize,
        hash: Digest,
        label: &str,
        purpose: Purpose,
    ) -> (r: Result<KeySpec, HsmError>)
        ensures
            match r {
                Ok(spec) => {
                    &&& key_spec_fault(label@, domain as nat) is None
                    &&& spec.spec_common_name() == common_name@
                    &&& spec.spec_id() == id
                    &&& spec.spec_algorithm() == algorithm
                    &&& spec.spec_capabilities() == capabilities
                    &&& Some(spec.spec_domain()) == domain_bit(domain as nat)
                    &&& spec.spec_hash() == hash
                    &&& spec.spec_label() == label@
                    &&& spec.spec_purpose() == purpose
                },
                Err(e) => key_spec_fault(label@, domain as nat) == Some(e),
            },
    {
        if !label_accepted(label) {
            return Err(HsmError::BadLabel);
        }
        let bit: u16 = match domain_at(domain) {
            Some(b) => b,
            None => {
                return Err(HsmError::BadDomain);
            },
        };
        assert(domain_bit(domain as nat) == Some(bit));
        Ok(
            KeySpec {
                common_name: String::from_str(common_name),
                id,
                algorithm,
                capabilities,
                domain: bit,
                hash,
                label: String::from_str(label),
                purpose,
            },
        )
    }

    /// The name that certificates for the key carry.
    pub fn common_name(&self) -> (r: &str)
        ensures
            r@ == self.spec_common_name(),
    {
        self.common_name.as_str()
    }

    /// The object id of the key.
    pub fn id(&self) -> (r: u16)
        ensures
            r == self.spec_id(),
    {
        self.id
    }

    /// The algorithm of the key.
    pub fn algorithm(&self) -> (r: KeyAlgorithm)
        ensures
            r == self.spec_algorithm(),
    {
        self.algorithm
    }

    /// What the key may be used for in the device, as a bit set.
    pub fn capabilities(&self) -> (r: u64)
        ensures
            r == self.spec_capabilities(),
    {
        self.capabilities
    }

    /// The domain of the key, as a bit set of one bit.
    pub fn domain(&self) -> (r: u16)
        ensures
            r == self.spec_domain(),
            exists|n: nat| domain_bit(n) == Some(r),
    {
        proof {
            use_type_invariant(self);
        }
        self.domain
    }

    /// The digest that goes with the key.
    pub fn hash(&self) -> (r: Digest)
        ensures
            r == self.spec_hash(),
    {
        self.hash
    }

    /// The label of the key; it fits the device.
    pub fn label(&self) -> (r: &str)
        ensures
            r@ == self.spec_label(),
            label_fits(r@),
    {
        proof {
            use_type_invariant(self);
        }
        self.label.as_str()
    }

    /// What the key is for.
    pub fn purpose(&self) -> (r: Purpose)
        ensures
            r == self.spec_purpose(),
    {
        self.purpose
    }

    /// A second copy of the specification.
    pub fn duplicate(&self) -> (r: KeySpec)
        ensures
            r == *self,
    {
        proof {
            use_type_invariant(self);
        }
        KeySpec {
            common_name: self.common_name.clone(),
            id: self.id,
            algorithm: self.algorithm,
            capabilities: self.capabilities,
            domain: self.domain,
            hash: self.hash,
            label: self.label.clone(),
            purpose: self.purpose,
        }
    }
}

/// A certificate signing request and the label of the authority that is to
/// sign it.
#[derive(Debug, PartialEq, Eq)]
pub struct CsrSpec {
    label: String,
    csr: String,
}

impl CsrSpec {
    #[verifier::type_invariant]
    spec fn well_formed(self) -> bool {
        label_fits(self.label@)
    }

    /// The label of the authority that is to sign.
    pub closed spec fn spec_label(&self) -> Seq<char> {
        self.label@
    }

    /// The request, as its file holds it.
    pub closed spec fn spec_csr(&self) -> Seq<char> {
        self.csr@
    }

    /// Takes a label and a request as a signing request, if the label fits
    /// the device.
    pub fn new(label: &str, csr: &str) -> (r: Result<CsrSpec, HsmError>)
        ensures
            match r {
                Ok(spec) => label_fits(label@) && spec.spec_label() == label@ && spec.spec_csr()
                    == csr@,
                Err(e) => !label_fits(label@) && e == HsmError::BadLabel,
            },
    {
        if !label_accepted(label) {
            return Err(HsmError::BadLabel);
        }
        Ok(CsrSpec { label: String::from_str(label), csr: String::from_str(csr) })
    }

    /// The label of the authority that is to sign.
    pub fn label(&self) -> (r: &str)
        ensures
            r@ == self.spec_label(),
            label_fits(r@),
    {
        proof {
            use_type_invariant(self);
        }
        self.label.as_str()
    }

    /// The request, as its file holds it.
    pub fn csr(&self) -> (r: &str)
        ensures
            r@ == self.spec_csr(),
    {
        self.csr.as_str()
    }
}

} // verus!
