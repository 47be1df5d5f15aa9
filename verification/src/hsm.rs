//! What is asked of the device: the parameters of the objects that the
//! keystore puts into it and the records it takes out.

use vstd::prelude::*;
use crate::ceremony::{AUTH_LABEL, WRAP_LABEL};
use crate::config::{files_with_ext, names_with_ext, texts_of, KeyAlgorithm, KeySpec, KEYSPEC_EXT};
use crate::device::{ALL_CAPABILITIES, ALL_DOMAINS};
use crate::error::HsmError;
use crate::policy::{AUTH_ID, KEY_LEN, WRAP_ID};
use crate::secret::zeroize_bytes;
use crate::share::Share;
use crate::sharing::{recombine, recombine_result, views_of, Verifier};
use crate::text::{chain, join_path, joined};

verus! {

/// The kinds of object in a device that the keystore deals with.
#[derive(Clone, Copy, Debug, PartialEq, Eq, Structural)]
pub enum ObjectType {
    /// Raw data.
    Opaque,
    /// A credential for opening sessions.
    AuthenticationKey,
    /// An asymmetric private key.
    AsymmetricKey,
    /// A key that wraps objects for export.
    WrapKey,
}

/// A symmetric key to put into the device, with everything the device
/// wants to know about it.
#[derive(Debug, PartialEq, Eq)]
pub struct KeyInstall {
    /// The kind of the key.
    pub kind: ObjectType,
    /// The object id to store it under.
    pub id: u16,
    /// Its label.
    pub label: String,
    /// The domains it belongs to, as a bit set.
    pub domains: u16,
    /// What it may be used for, as a bit set.
    pub capabilities: u64,
    /// What the objects it handles may be used for, as a bit set.
    pub delegated_capabilities: u64,
    /// The key itself.
    pub key: Vec<u8>,
}

/// The parameters of the wrap key: the well-known id and label, every
/// domain and every capability.
pub open spec fn is_wrap_key_install(install: KeyInstall, key: Seq<u8>) -> bool {
    &&& install.kind == ObjectType::WrapKey
    &&& install.id == WRAP_ID
    &&& install.label@ == WRAP_LABEL@
    &&& install.domains == ALL_DOMAINS
    &&& install.capabilities == ALL_CAPABILITIES
    &&& install.delegated_capabilities == ALL_CAPABILITIES
    &&& install.key@ == key
}

/// The parameters of the administrative credential: the well-known id and
/// label, every domain and every capability.
pub open spec fn is_auth_key_install(install: KeyInstall, key: Seq<u8>) -> bool {
    &&& install.kind == ObjectType::AuthenticationKey
    &&& install.id == AUTH_ID
    &&& install.label@ == AUTH_LABEL@
    &&& install.domains == ALL_DOMAINS
    &&& install.capabilities == ALL_CAPABILITIES
    &&& install.delegated_capabilities == ALL_CAPABILITIES
    &&& install.key@ == key
}

/// The request that puts a wrap key into the device.
pub fn wrap_key_install(key: &Vec<u8>) -> (r: KeyInstall)
    ensures
        is_wrap_key_install(r, key@),
{
    KeyInstall {
        kind: ObjectType::WrapKey,
        id: WRAP_ID,
        label: String::from_str(WRAP_LABEL),
        domains: ALL_DOMAINS,
        capabilities: ALL_CAPABILITIES,
        delegated_capabilities: ALL_CAPABILITIES,
        key: key.clone(),
    }
}

/// The request that puts the administrative credential into the device.
pub fn auth_key_install(key: &Vec<u8>) -> (r: KeyInstall)
    ensures
        is_auth_key_install(r, key@),
{
    KeyInstall {
        kind: ObjectType::AuthenticationKey,
        id: AUTH_ID,
        label: String::from_str(AUTH_LABEL),
        domains: ALL_DOMAINS,
        capabilities: ALL_CAPABILITIES,
        delegated_capabilities: ALL_CAPABILITIES,
        key: key.clone(),
    }
}

/// Rebuilds the wrap key from the shares that the custodians brought back
/// and prepares its return to a device. Every share is checked against the
/// commitments; the key is given only if enough shares were brought and all
/// of them stand the check.
pub fn restore(shares: &Vec<Share>, verifier: &Verifier) -> (r: Result<KeyInstall, HsmError>)
    ensures
        match r {
            Ok(install) => recombine_result(views_of(shares@), *verifier) == Ok::<
                Seq<u8>,
                HsmError,
            >(install.key@) && is_wrap_key_install(install, install.key@) && install.key@.len()
                == KEY_LEN,
            Err(e) => recombine_result(views_of(shares@), *verifier) == Err::<Seq<u8>, HsmError>(e),
        },
{
    match recombine(shares, verifier) {
        Ok(key) => {
            let mut key = key;
            let install = wrap_key_install(&key);
            zeroize_bytes(&mut key);
            Ok(install)
        },
        Err(e) => Err(e),
    }
}

/// Whether the device stored the wrap key where every later command will
/// look for it.
pub fn wrap_key_confirmed(stored_id: u16) -> (r: bool)
    ensures
        r == (stored_id == WRAP_ID),
{
    stored_id == WRAP_ID
}

/// Everything that creates one key in the device and records it.
#[derive(Debug, PartialEq, Eq)]
pub struct KeyGeneration {
    /// The object id of the new key.
    pub id: u16,
    /// Its label.
    pub label: String,
    /// Its domain, as a bit set.
    pub domains: u16,
    /// What it may be used for, as a bit set.
    pub capabilities: u64,
    /// Its algorithm.
    pub algorithm: KeyAlgorithm,
    /// The object id of the wrap key under which the new key is exported.
    pub wrap_id: u16,
    /// The file that keeps the wrapped key.
    pub wrap_file: String,
    /// The file that keeps the attestation certificate of the key.
    pub attest_file: String,
}

/// Plans the creation of the key that a specification describes: the key
/// is generated in the device, exported under the wrap key and attested,
/// and both records are named by the label of the key.
pub fn hsm_generate_key(key_spec: &KeySpec, out_dir: &str) -> (r: KeyGeneration)
    ensures
        r.id == key_spec.spec_id(),
        r.label@ == key_spec.spec_label(),
        r.domains == key_spec.spec_domain(),
        r.capabilities == key_spec.spec_capabilities(),
        r.algorithm == key_spec.spec_algorithm(),
        r.wrap_id == WRAP_ID,
        r.wrap_file@ == joined(out_dir@, key_spec.spec_label() + ".wrap.json"@),
        r.attest_file@ == joined(out_dir@, key_spec.spec_label() + ".attest.cert.pem"@),
{
    let label: &str = key_spec.label();
    let wrap_name: String = chain(label, ".wrap.json");
    let attest_name: String = chain(label, ".attest.cert.pem");
    KeyGeneration {
        id: key_spec.id(),
        label: String::from_str(label),
        domains: key_spec.domain(),
        capabilities: key_spec.capabilities(),
        algorithm: key_spec.algorithm(),
        wrap_id: WRAP_ID,
        wrap_file: join_path(out_dir, wrap_name.as_str()),
        attest_file: join_path(out_dir, attest_name.as_str()),
    }
}

/// Picks the key specifications among the files of a directory: those
/// whose names end as a key specification does, in the order found.
pub fn hsm_generate_key_batch(names: &Vec<String>) -> (r: Vec<String>)
    ensures
        texts_of(r@) == names_with_ext(texts_of(names@), KEYSPEC_EXT@),
{
    files_with_ext(names, KEYSPEC_EXT)
}

} // verus!
