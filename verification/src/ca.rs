//! Certificate authorities: the files of a new authority, the invocations
//! of the signing engine that found it and that sign with it, and the
//! reading of the engine's exit status.

use vstd::prelude::*;
use crate::config::{texts_of, CsrSpec, Digest, KeySpec, Purpose};
use crate::error::HsmError;
use crate::policy::INITIAL_SERIAL;
use crate::text::{
    chain, decimal, decimal_text, file_stem, has_prefix, join_path, joined, padded_decimal,
    padded_decimal_text, starts_with, stem_of,
};

verus! {

/// Name of the copy of the key specification in the directory of an authority.
pub const CA_KEY_SPEC: &'static str = "key.spec";

/// Name of the configuration file of the signing engine.
pub const ENGINE_CONFIG: &'static str = "openssl.cnf";

/// Name of the certificate of an authority in its directory.
pub const CA_CERT: &'static str = "ca.cert.pem";

/// Name of the program that signs.
pub const ENGINE_PROGRAM: &'static str = "openssl";

/// Name of the program that connects the signing engine to the device.
pub const CONNECTOR_PROGRAM: &'static str = "yubihsm-connector";

/// Name of the environment variable that carries the authentication secret
/// to the signing engine.
pub const PKCS11_AUTH_ENV: &'static str = "OKM_HSM_PKCS11_AUTH";

/// The tag in front of the authentication secret: the object id of the
/// credential to authenticate with, in four hexadecimal digits.
pub const KEY_SLOT_TAG: &'static str = "0002";

/// The configuration of the signing engine up to the reference to the private key.
pub const CNF_HEAD: &'static str = "\n\
openssl_conf                = default_modules\n\
\n\
[default_modules]\n\
engines                     = engine_section\n\
oid_section                 = OIDs\n\
\n\
[engine_section]\n\
pkcs11                      = pkcs11_section\n\
\n\
[pkcs11_section]\n\
engine_id                   = pkcs11\n\
MODULE_PATH                 = /usr/lib/pkcs11/yubihsm_pkcs11.so\n\
INIT_ARGS                   = connector=http://127.0.0.1:12345 debug\n\
init                        = 0\n\
\n\
[ ca ]\n\
default_ca                  = CA_default\n\
\n\
[ CA_default ]\n\
dir                         = ./\n\
crl_dir                     = $dir/crl\n\
database                    = $dir/index.txt\n\
new_certs_dir               = $dir/newcerts\n\
certificate                 = $dir/ca.cert.pem\n\
serial                      = $dir/serial\n\
# key format:   <slot>:<key id>\n\
private_key                 = ";

/// The configuration between the reference to the private key and the digest of the authority.
pub const CNF_AFTER_KEY: &'static str = "\n\
name_opt                    = ca_default\n\
cert_opt                    = ca_default\n\
# certs may be retired, but they won't expire\n\
default_enddate             = 99991231235959Z\n\
default_crl_days            = 30\n\
default_md                  = ";

/// The configuration between the digest of the authority and the digest of requests.
pub const CNF_AFTER_DIGEST: &'static str = "\n\
preserve                    = no\n\
policy                      = policy_match\n\
email_in_dn                 = no\n\
rand_serial                 = no\n\
unique_subject              = yes\n\
\n\
[ policy_match ]\n\
countryName                 = optional\n\
stateOrProvinceName         = optional\n\
organizationName            = optional\n\
organizationalUnitName      = optional\n\
commonName                  = supplied\n\
emailAddress                = optional\n\
\n\
[ req ]\n\
default_md                  = ";

/// The rest of the configuration: policies, extension sections and object identifiers.
pub const CNF_TAIL: &'static str = "\n\
string_mask                 = utf8only\n\
\n\
[ v3_code_signing_prod_ca ]\n\
subjectKeyIdentifier        = hash\n\
authorityKeyIdentifier      = keyid:always,issuer\n\
basicConstraints            = critical,CA:true\n\
keyUsage                    = critical, keyCertSign, cRLSign\n\
\n\
[ v3_code_signing_prod ]\n\
subjectKeyIdentifier        = hash\n\
authorityKeyIdentifier      = keyid:always,issuer\n\
basicConstraints            = critical,CA:false\n\
keyUsage                    = critical, digitalSignature\n\
\n\
[ v3_code_signing_dev_ca ]\n\
subjectKeyIdentifier        = hash\n\
authorityKeyIdentifier      = keyid:always,issuer\n\
basicConstraints            = critical,CA:true\n\
keyUsage                    = critical, keyCertSign, cRLSign\n\
certificatePolicies         = critical,development-device-only\n\
\n\
[ v3_code_signing_dev ]\n\
subjectKeyIdentifier        = hash\n\
authorityKeyIdentifier      = keyid:always,issuer\n\
basicConstraints            = critical,CA:false\n\
keyUsage                    = critical, digitalSignature\n\
certificatePolicies         = critical,development-device-only\n\
\n\
[ v3_identity ]\n\
subjectKeyIdentifier        = hash\n\
authorityKeyIdentifier      = keyid:always,issuer\n\
basicConstraints            = critical,CA:true\n\
keyUsage                    = critical, keyCertSign, cRLSign\n\
\n\
[ OIDs ]\n\
development-device-only = 1.3.6.1.4.1.57551.1\n\
";

/// The reference to a key in the device as the signing engine takes it:
/// the slot, a colon, and the object id in at least four decimal digits.
pub open spec fn key_reference_text(id: u16) -> Seq<char> {
    "0:"@ + padded_decimal_text(id as nat, 4)
}

/// Writes the reference to a key in the device.
pub fn key_reference(id: u16) -> (r: String)
    ensures
        r@ == key_reference_text(id),
{
    let digits: String = padded_decimal(id as u64, 4);
    chain("0:", digits.as_str())
}

/// The configuration of the signing engine for an authority whose key has
/// the given object id and which signs with the given digest.
pub open spec fn engine_config_text(id: u16, hash: Digest) -> Seq<char> {
    CNF_HEAD@ + key_reference_text(id) + CNF_AFTER_KEY@ + hash.name() + CNF_AFTER_DIGEST@
        + hash.name() + CNF_TAIL@
}

/// Writes the configuration of the signing engine for an authority.
pub fn engine_config(id: u16, hash: Digest) -> (r: String)
    ensures
        r@ == engine_config_text(id, hash),
{
    let mut out: String = String::from_str(CNF_HEAD);
    let key: String = key_reference(id);
    out.append(key.as_str());
    out.append(CNF_AFTER_KEY);
    out.append(hash.digest_name());
    out.append(CNF_AFTER_DIGEST);
    out.append(hash.digest_name());
    out.append(CNF_TAIL);
    out
}

/// The value of the authentication variable for a password.
pub open spec fn auth_value_text(password: Seq<char>) -> Seq<char> {
    KEY_SLOT_TAG@ + password
}

/// The value to hand to the signing engine in its authentication variable:
/// the password behind the tag of the credential.
pub fn pkcs11_auth_value(password: &str) -> (r: String)
    ensures
        r@ == auth_value_text(password@),
{
    chain(KEY_SLOT_TAG, password)
}

/// The password inside a value of the authentication variable, if the
/// value starts with the tag.
pub open spec fn password_in(value: Seq<char>) -> Option<Seq<char>> {
    if has_prefix(value, KEY_SLOT_TAG@) {
        Some(value.skip(KEY_SLOT_TAG@.len() as int))
    } else {
        None
    }
}

/// Takes the password out of a value of the authentication variable.
pub fn password_from_auth_value(value: &str) -> (r: Option<String>)
    ensures
        match r {
            Some(password) => password_in(value@) == Some(password@),
            None => password_in(value@) is None,
        },
{
    if !starts_with(value, KEY_SLOT_TAG) {
        return None;
    }
    let n: usize = value.unicode_len();
    let m: usize = KEY_SLOT_TAG.unicode_len();
    let rest: &str = value.substring_char(m, n);
    assert(rest@ =~= value@.skip(m as int));
    Some(String::from_str(rest))
}

/// The password put behind the tag is the password taken out again.
pub proof fn auth_value_round_trip(password: Seq<char>)
    ensures
        password_in(auth_value_text(password)) == Some(password),
{
    let value = auth_value_text(password);
    assert(value.subrange(0, KEY_SLOT_TAG@.len() as int) =~= KEY_SLOT_TAG@);
    assert(value.skip(KEY_SLOT_TAG@.len() as int) =~= password);
}

/// One run of an external program.
#[derive(Debug, PartialEq, Eq)]
pub struct Invocation {
    /// The program to run.
    pub program: String,
    /// Its arguments, in order.
    pub args: Vec<String>,
    /// The directory to run it in.
    pub working_dir: String,
}

/// What an invocation holds, as plain sequences.
pub struct InvocationView {
    /// The program to run.
    pub program: Seq<char>,
    /// Its arguments, in order.
    pub args: Seq<Seq<char>>,
    /// The directory to run it in.
    pub working_dir: Seq<char>,
}

impl View for Invocation {
    type V = InvocationView;

    open spec fn view(&self) -> InvocationView {
        InvocationView {
            program: self.program@,
            args: texts_of(self.args@),
            working_dir: self.working_dir@,
        }
    }
}

/// Adds a text to the end of a list of arguments.
fn push_text(args: &mut Vec<String>, text: &str)
    ensures
        texts_of(final(args)@) == texts_of(old(args)@).push(text@),
{
    let ghost before = texts_of(args@);
    args.push(String::from_str(text));
    assert(texts_of(args@) =~= before.push(text@));
}

/// The subject of the certificate of an authority.
pub open spec fn subject_text(common_name: Seq<char>) -> Seq<char> {
    "/CN="@ + common_name + "/"@
}

/// The arguments with which the signing engine writes the request for the
/// certificate of a new authority, the key staying in the device.
pub open spec fn request_args(spec: KeySpec, csr_path: Seq<char>) -> Seq<Seq<char>> {
    seq![
        "req"@,
        "-config"@,
        ENGINE_CONFIG@,
        "-new"@,
        "-subj"@,
        subject_text(spec.spec_common_name()),
        "-engine"@,
        "pkcs11"@,
        "-keyform"@,
        "engine"@,
        "-key"@,
        key_reference_text(spec.spec_id()),
        "-passin"@,
        "env:OKM_HSM_PKCS11_AUTH"@,
        "-out"@,
        csr_path,
    ]
}

/// The arguments with which the signing engine signs the request of a new
/// authority with the authority's own key.
pub open spec fn self_sign_args(spec: KeySpec, csr_path: Seq<char>) -> Seq<Seq<char>> {
    seq![
        "ca"@,
        "-batch"@,
        "-selfsign"@,
        "-config"@,
        ENGINE_CONFIG@,
        "-engine"@,
        "pkcs11"@,
        "-keyform"@,
        "engine"@,
        "-keyfile"@,
        key_reference_text(spec.spec_id()),
        "-extensions"@,
        spec.spec_purpose().section(),
        "-passin"@,
        "env:OKM_HSM_PKCS11_AUTH"@,
        "-in"@,
        csr_path,
        "-out"@,
        CA_CERT@,
    ]
}

/// The arguments with which the signing engine signs a request with the
/// key of an authority, without asking anything.
pub open spec fn sign_args(
    key_id: u16,
    profile: Purpose,
    csr_path: Seq<char>,
    cert_path: Seq<char>,
) -> Seq<Seq<char>> {
    seq![
        "ca"@,
        "-batch"@,
        "-config"@,
        ENGINE_CONFIG@,
        "-engine"@,
        "pkcs11"@,
        "-keyform"@,
        "engine"@,
        "-keyfile"@,
        key_reference_text(key_id),
        "-extensions"@,
        profile.section(),
        "-passin"@,
        "env:OKM_HSM_PKCS11_AUTH"@,
        "-in"@,
        csr_path,
        "-out"@,
        cert_path,
    ]
}

/// A run of the signing engine in a directory with given arguments.
fn engine_run(args: Vec<String>, working_dir: &str) -> (r: Invocation)
    ensures
        r@.program == ENGINE_PROGRAM@,
        r@.args == texts_of(args@),
        r@.working_dir == working_dir@,
{
    Invocation {
        program: String::from_str(ENGINE_PROGRAM),
        args,
        working_dir: String::from_str(working_dir),
    }
}

/// The run of the signing engine that writes the request of a new authority.
fn request_invocation(spec: &KeySpec, ca_dir: &str, csr_path: &str) -> (r: Invocation)
    ensures
        r@.program == ENGINE_PROGRAM@,
        r@.args == request_args(*spec, csr_path@),
        r@.working_dir == ca_dir@,
{
    let mut subject: String = String::from_str("/CN=");
    subject.append(spec.common_name());
    subject.append("/");
    let key: String = key_reference(spec.id());
    let mut args: Vec<String> = Vec::new();
    assert(texts_of(args@) =~= Seq::<Seq<char>>::empty());
    push_text(&mut args, "req");
    push_text(&mut args, "-config");
    push_text(&mut args, ENGINE_CONFIG);
    push_text(&mut args, "-new");
    push_text(&mut args, "-subj");
    push_text(&mut args, subject.as_str());
    push_text(&mut args, "-engine");
    push_text(&mut args, "pkcs11");
    push_text(&mut args, "-keyform");
    push_text(&mut args, "engine");
    push_text(&mut args, "-key");
    push_text(&mut args, key.as_str());
    push_text(&mut args, "-passin");
    push_text(&mut args, "env:OKM_HSM_PKCS11_AUTH");
    push_text(&mut args, "-out");
    push_text(&mut args, csr_path);
    assert(texts_of(args@) =~= request_args(*spec, csr_path@));
    engine_run(args, ca_dir)
}

/// The run of the signing engine that signs the request of a new authority.
fn self_sign_invocation(spec: &KeySpec, ca_dir: &str, csr_path: &str) -> (r: Invocation)
    ensures
        r@.program == ENGINE_PROGRAM@,
        r@.args == self_sign_args(*spec, csr_path@),
        r@.working_dir == ca_dir@,
{
    let key: String = key_reference(spec.id());
    let purpose: Purpose = spec.purpose();
    let mut args: Vec<String> = Vec::new();
    assert(texts_of(args@) =~= Seq::<Seq<char>>::empty());
    push_text(&mut args, "ca");
    push_text(&mut args, "-batch");
    push_text(&mut args, "-selfsign");
    push_text(&mut args, "-config");
    push_text(&mut args, ENGINE_CONFIG);
    push_text(&mut args, "-engine");
    push_text(&mut args, "pkcs11");
    push_text(&mut args, "-keyform");
    push_text(&mut args, "engine");
    push_text(&mut args, "-keyfile");
    push_text(&mut args, key.as_str());
    push_text(&mut args, "-extensions");
    push_text(&mut args, purpose.extension_section());
    push_text(&mut args, "-passin");
    push_text(&mut args, "env:OKM_HSM_PKCS11_AUTH");
    push_text(&mut args, "-in");
    push_text(&mut args, csr_path);
    push_text(&mut args, "-out");
    push_text(&mut args, CA_CERT);
    assert(texts_of(args@) =~= self_sign_args(*spec, csr_path@));
    engine_run(args, ca_dir)
}

/// The run of the signing engine that signs a request with an authority.
fn sign_invocation(key_id: u16, profile: Purpose, ca_dir: &str, csr_path: &str, cert_path: &str) -> (r:
    Invocation)
    ensures
        r@.program == ENGINE_PROGRAM@,
        r@.args == sign_args(key_id, profile, csr_path@, cert_path@),
        r@.working_dir == ca_dir@,
{
    let key: String = key_reference(key_id);
    let mut args: Vec<String> = Vec::new();
    assert(texts_of(args@) =~= Seq::<Seq<char>>::empty());
    push_text(&mut args, "ca");
    push_text(&mut args, "-batch");
    push_text(&mut args, "-config");
    push_text(&mut args, ENGINE_CONFIG);
    push_text(&mut args, "-engine");
    push_text(&mut args, "pkcs11");
    push_text(&mut args, "-keyform");
    push_text(&mut args, "engine");
    push_text(&mut args, "-keyfile");
    push_text(&mut args, key.as_str());
    push_text(&mut args, "-extensions");
    push_text(&mut args, profile.extension_section());
    push_text(&mut args, "-passin");
    push_text(&mut args, "env:OKM_HSM_PKCS11_AUTH");
    push_text(&mut args, "-in");
    push_text(&mut args, csr_path);
    push_text(&mut args, "-out");
    push_text(&mut args, cert_path);
    assert(texts_of(args@) =~= sign_args(key_id, profile, csr_path@, cert_path@));
    engine_run(args, ca_dir)
}

/// Mode of the directory that only its owner may enter.
pub const PRIVATE_DIR_MODE: u32 = 0o700;

/// A directory to create.
#[derive(Debug, PartialEq, Eq)]
pub struct DirEntry {
    /// The name of the directory.
    pub name: String,
    /// Whether only the owner may enter it (`PRIVATE_DIR_MODE`).
    pub restricted: bool,
}

impl View for DirEntry {
    type V = (Seq<char>, bool);

    open spec fn view(&self) -> (Seq<char>, bool) {
        (self.name@, self.restricted)
    }
}

/// A file to write.
#[derive(Debug, PartialEq, Eq)]
pub struct FileEntry {
    /// The name or path of the file.
    pub name: String,
    /// What the file holds.
    pub content: String,
}

impl View for FileEntry {
    type V = (Seq<char>, Seq<char>);

    open spec fn view(&self) -> (Seq<char>, Seq<char>) {
        (self.name@, self.content@)
    }
}

/// The views of a list of directories.
pub open spec fn dirs_of(items: Seq<DirEntry>) -> Seq<(Seq<char>, bool)> {
    items.map_values(|d: DirEntry| d@)
}

/// The views of a list of files.
pub open spec fn files_of(items: Seq<FileEntry>) -> Seq<(Seq<char>, Seq<char>)> {
    items.map_values(|f: FileEntry| f@)
}

/// The directories that the signing engine expects in the directory of an
/// authority; the last is for its owner alone.
pub open spec fn layout_dirs() -> Seq<(Seq<char>, bool)> {
    seq![("crl"@, false), ("newcerts"@, false), ("private"@, true)]
}

/// The files that the signing engine expects in the directory of a new
/// authority: an empty ledger, the first serial number and the
/// configuration.
pub open spec fn layout_files(id: u16, hash: Digest) -> Seq<(Seq<char>, Seq<char>)> {
    seq![
        ("index.txt"@, Seq::<char>::empty()),
        ("serial"@, decimal_text(INITIAL_SERIAL as nat)),
        (ENGINE_CONFIG@, engine_config_text(id, hash)),
    ]
}

/// What to create in the directory of a new authority.
#[derive(Debug, PartialEq, Eq)]
pub struct CaLayout {
    /// The directories, in the order to create them.
    pub directories: Vec<DirEntry>,
    /// The files, in the order to write them.
    pub files: Vec<FileEntry>,
}

/// Lays out the directory of a new authority as the signing engine expects
/// it.
pub fn bootstrap_ca(key_spec: &KeySpec) -> (r: CaLayout)
    ensures
        dirs_of(r.directories@) == layout_dirs(),
        files_of(r.files@) == layout_files(key_spec.spec_id(), key_spec.spec_hash()),
{
    let mut directories: Vec<DirEntry> = Vec::new();
    directories.push(DirEntry { name: String::from_str("crl"), restricted: false });
    directories.push(DirEntry { name: String::from_str("newcerts"), restricted: false });
    directories.push(DirEntry { name: String::from_str("private"), restricted: true });
    assert(dirs_of(directories@) =~= layout_dirs());
    let mut files: Vec<FileEntry> = Vec::new();
    files.push(FileEntry { name: String::from_str("index.txt"), content: String::new() });
    files.push(
        FileEntry { name: String::from_str("serial"), content: decimal(INITIAL_SERIAL as u64) },
    );
    files.push(
        FileEntry {
            name: String::from_str(ENGINE_CONFIG),
            content: engine_config(key_spec.id(), key_spec.hash()),
        },
    );
    assert(files_of(files@) =~= layout_files(key_spec.spec_id(), key_spec.spec_hash()));
    CaLayout { directories, files }
}

/// The name of a file: a stem and an ending.
pub open spec fn named(stem: Seq<char>, ending: Seq<char>) -> Seq<char> {
    stem + ending
}

/// Everything that founds a certificate authority on a key in the device.
#[derive(Debug, PartialEq, Eq)]
pub struct CaBootstrap {
    /// The directory of the authority: one per label, under the state
    /// directory.
    pub ca_dir: String,
    /// The copy of the key specification to keep in that directory.
    pub key_spec_copy: FileEntry,
    /// What else to create in that directory.
    pub layout: CaLayout,
    /// Where the request for the authority's certificate is written.
    pub csr_path: String,
    /// The run of the signing engine that writes the request.
    pub request: Invocation,
    /// The run of the signing engine that signs it with the key itself.
    pub self_sign: Invocation,
    /// Where the certificate is copied for publication.
    pub cert_copy: String,
}

/// Plans the founding of a certificate authority on the key that a
/// specification describes. Only a key whose purpose is the root of an
/// authority is taken; for any other purpose nothing is planned, so that
/// no file is written.
pub fn ca_initialize(key_spec: &KeySpec, spec_text: &str, ca_state: &str, tmp_dir: &str) -> (r:
    Result<CaBootstrap, HsmError>)
    ensures
        match r {
            Ok(plan) => {
                let label = key_spec.spec_label();
                let ca_dir = joined(ca_state@, label);
                let csr_path = joined(tmp_dir@, named(label, ".csr.pem"@));
                &&& key_spec.spec_purpose().is_ca_eligible()
                &&& plan.ca_dir@ == ca_dir
                &&& plan.key_spec_copy@ == (CA_KEY_SPEC@, spec_text@)
                &&& dirs_of(plan.layout.directories@) == layout_dirs()
                &&& files_of(plan.layout.files@) == layout_files(
                    key_spec.spec_id(),
                    key_spec.spec_hash(),
                )
                &&& plan.csr_path@ == csr_path
                &&& plan.request@ == (InvocationView {
                    program: ENGINE_PROGRAM@,
                    args: request_args(*key_spec, csr_path),
                    working_dir: ca_dir,
                })
                &&& plan.self_sign@ == (InvocationView {
                    program: ENGINE_PROGRAM@,
                    args: self_sign_args(*key_spec, csr_path),
                    working_dir: ca_dir,
                })
                &&& plan.cert_copy@ == joined(tmp_dir@, named(label, ".cert.pem"@))
            },
            Err(e) => !key_spec.spec_purpose().is_ca_eligible() && e == HsmError::BadPurpose,
        },
{
    if !key_spec.purpose().ca_eligible() {
        return Err(HsmError::BadPurpose);
    }
    let label: &str = key_spec.label();
    let ca_dir: String = join_path(ca_state, label);
    let csr_name: String = chain(label, ".csr.pem");
    let csr_path: String = join_path(tmp_dir, csr_name.as_str());
    let cert_name: String = chain(label, ".cert.pem");
    let cert_copy: String = join_path(tmp_dir, cert_name.as_str());
    let request = request_invocation(key_spec, ca_dir.as_str(), csr_path.as_str());
    let self_sign = self_sign_invocation(key_spec, ca_dir.as_str(), csr_path.as_str());
    let layout = bootstrap_ca(key_spec);
    let key_spec_copy = FileEntry {
        name: String::from_str(CA_KEY_SPEC),
        content: String::from_str(spec_text),
    };
    Ok(CaBootstrap { ca_dir, key_spec_copy, layout, csr_path, request, self_sign, cert_copy })
}

/// Where the key specification of the authority with a given label is
/// kept.
pub open spec fn key_spec_location(state: Seq<char>, label: Seq<char>) -> Seq<char> {
    joined(joined(state, label), CA_KEY_SPEC@)
}

/// Locates the key specification of the authority that a request names.
pub fn key_spec_path(state: &str, csr_spec: &CsrSpec) -> (r: String)
    ensures
        r@ == key_spec_location(state@, csr_spec.spec_label()),
{
    let dir: String = join_path(state, csr_spec.label());
    join_path(dir.as_str(), CA_KEY_SPEC)
}

/// Everything that signs one request with a certificate authority.
#[derive(Debug, PartialEq, Eq)]
pub struct SignJob {
    /// The request, to be written where the signing engine reads it.
    pub csr_file: FileEntry,
    /// The run of the signing engine.
    pub invocation: Invocation,
    /// Where the signing engine leaves the certificate.
    pub cert_path: String,
}

/// Plans the signing of one request. The file name of the request gives
/// the names of the files written; the purpose of the authority's key gives
/// the profile of the certificate, and a key that is no root of an
/// authority is refused.
pub fn ca_sign_csrspec(
    csr_file_name: &str,
    csr_spec: &CsrSpec,
    key_spec: &KeySpec,
    tmp_dir: &str,
    state: &str,
    publish: &str,
) -> (r: Result<SignJob, HsmError>)
    ensures
        match r {
            Ok(job) => {
                let stem = stem_of(csr_file_name@);
                let csr_path = joined(tmp_dir@, named(stem, ".csr.pem"@));
                let cert_path = joined(publish@, named(stem, ".cert.pem"@));
                &&& key_spec.spec_purpose().leaf() matches Some(profile)
                &&& job.csr_file@ == (csr_path, csr_spec.spec_csr())
                &&& job.cert_path@ == cert_path
                &&& job.invocation@ == (InvocationView {
                    program: ENGINE_PROGRAM@,
                    args: sign_args(key_spec.spec_id(), profile, csr_path, cert_path),
                    working_dir: joined(state@, key_spec.spec_label()),
                })
            },
            Err(e) => key_spec.spec_purpose().leaf() is None && e == HsmError::BadPurpose,
        },
{
    let profile: Purpose = match key_spec.purpose().leaf_purpose() {
        Ok(p) => p,
        Err(e) => {
            return Err(e);
        },
    };
    let ca_dir: String = join_path(state, key_spec.label());
    let stem: String = file_stem(csr_file_name);
    let csr_name: String = chain(stem.as_str(), ".csr.pem");
    let csr_path: String = join_path(tmp_dir, csr_name.as_str());
    let cert_name: String = chain(stem.as_str(), ".cert.pem");
    let cert_path: String = join_path(publish, cert_name.as_str());
    let invocation = sign_invocation(
        key_spec.id(),
        profile,
        ca_dir.as_str(),
        csr_path.as_str(),
        cert_path.as_str(),
    );
    let csr_file = FileEntry { name: csr_path, content: String::from_str(csr_spec.csr()) };
    Ok(SignJob { csr_file, invocation, cert_path })
}

} // verus!
