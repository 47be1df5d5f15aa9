use oks::ca::{
    bootstrap_ca, ca_initialize, ca_sign_csrspec, engine_config, key_reference, key_spec_path,
    password_from_auth_value, pkcs11_auth_value, DirEntry, FileEntry, CA_CERT, CA_KEY_SPEC,
    CONNECTOR_PROGRAM, ENGINE_CONFIG, ENGINE_PROGRAM, KEY_SLOT_TAG, PKCS11_AUTH_ENV,
    PRIVATE_DIR_MODE,
};
use oks::config::{CsrSpec, Digest, KeyAlgorithm, KeySpec, Purpose};
use oks::error::HsmError;

fn key_spec(label: &str, id: u16, purpose: Purpose, hash: Digest) -> KeySpec {
    KeySpec::new("Example Root", id, KeyAlgorithm::EcP384, 0x80, 1, hash, label, purpose).unwrap()
}

fn strings(list: &[&str]) -> Vec<String> {
    list.iter().map(|s| s.to_string()).collect()
}

#[test]
fn key_reference_is_slot_and_padded_id() {
    assert_eq!(key_reference(1), "0:0001");
    assert_eq!(key_reference(0), "0:0000");
    assert_eq!(key_reference(42), "0:0042");
    assert_eq!(key_reference(0x1234), "0:4660");
    assert_eq!(key_reference(9999), "0:9999");
    assert_eq!(key_reference(10000), "0:10000");
    assert_eq!(key_reference(65535), "0:65535");
    for id in [0u16, 7, 10, 99, 100, 999, 1000, 12345, u16::MAX] {
        assert_eq!(key_reference(id), format!("0:{:#04}", id));
    }
}

fn expected_config(key: u16, hash: Digest) -> String {
    format!(
        r#"
openssl_conf                = default_modules

[default_modules]
engines                     = engine_section
oid_section                 = OIDs

[engine_section]
pkcs11                      = pkcs11_section

[pkcs11_section]
engine_id                   = pkcs11
MODULE_PATH                 = /usr/lib/pkcs11/yubihsm_pkcs11.so
INIT_ARGS                   = connector=http://127.0.0.1:12345 debug
init                        = 0

[ ca ]
default_ca                  = CA_default

[ CA_default ]
dir                         = ./
crl_dir                     = $dir/crl
database                    = $dir/index.txt
new_certs_dir               = $dir/newcerts
certificate                 = $dir/ca.cert.pem
serial                      = $dir/serial
# key format:   <slot>:<key id>
private_key                 = 0:{key:#04}
name_opt                    = ca_default
cert_opt                    = ca_default
# certs may be retired, but they won't expire
default_enddate             = 99991231235959Z
default_crl_days            = 30
default_md                  = {hash:?}
preserve                    = no
policy                      = policy_match
email_in_dn                 = no
rand_serial                 = no
unique_subject              = yes

[ policy_match ]
countryName                 = optional
stateOrProvinceName         = optional
organizationName            = optional
organizationalUnitName      = optional
commonName                  = supplied
emailAddress                = optional

[ req ]
default_md                  = {hash:?}
string_mask                 = utf8only

[ v3_code_signing_prod_ca ]
subjectKeyIdentifier        = hash
authorityKeyIdentifier      = keyid:always,issuer
basicConstraints            = critical,CA:true
keyUsage                    = critical, keyCertSign, cRLSign

[ v3_code_signing_prod ]
subjectKeyIdentifier        = hash
authorityKeyIdentifier      = keyid:always,issuer
basicConstraints            = critical,CA:false
keyUsage                    = critical, digitalSignature

[ v3_code_signing_dev_ca ]
subjectKeyIdentifier        = hash
authorityKeyIdentifier      = keyid:always,issuer
basicConstraints            = critical,CA:true
keyUsage                    = critical, keyCertSign, cRLSign
certificatePolicies         = critical,development-device-only

[ v3_code_signing_dev ]
subjectKeyIdentifier        = hash
authorityKeyIdentifier      = keyid:always,issuer
basicConstraints            = critical,CA:false
keyUsage                    = critical, digitalSignature
certificatePolicies         = critical,development-device-only

[ v3_identity ]
subjectKeyIdentifier        = hash
authorityKeyIdentifier      = keyid:always,issuer
basicConstraints            = critical,CA:true
keyUsage                    = critical, keyCertSign, cRLSign

[ OIDs ]
development-device-only = 1.3.6.1.4.1.57551.1
"#,
        key = key,
        hash = hash
    )
}

#[test]
fn engine_config_names_the_key_and_the_digest() {
    assert_eq!(engine_config(1, Digest::Sha256), expected_config(1, Digest::Sha256));
    assert_eq!(engine_config(0x0102, Digest::Sha384), expected_config(0x0102, Digest::Sha384));
    assert_eq!(engine_config(65535, Digest::Sha256), expected_config(65535, Digest::Sha256));
    let text = engine_config(7, Digest::Sha384);
    assert!(text.contains("\nprivate_key                 = 0:0007\n"));
    assert_eq!(text.matches("default_md                  = Sha384\n").count(), 2);
    assert!(text.starts_with("\nopenssl_conf"));
    assert!(text.ends_with("development-device-only = 1.3.6.1.4.1.57551.1\n"));
}

#[test]
fn auth_value_carries_the_password_behind_the_tag() {
    assert_eq!(KEY_SLOT_TAG, "0002");
    assert_eq!(PKCS11_AUTH_ENV, "OKM_HSM_PKCS11_AUTH");
    assert_eq!(pkcs11_auth_value("hunter2"), "0002hunter2");
    assert_eq!(pkcs11_auth_value(""), "0002");
    assert_eq!(password_from_auth_value("0002hunter2"), Some("hunter2".to_string()));
    assert_eq!(password_from_auth_value("0002"), Some(String::new()));
    assert_eq!(password_from_auth_value("00020002"), Some("0002".to_string()));
    assert_eq!(password_from_auth_value("0001hunter2"), None);
    assert_eq!(password_from_auth_value("hunter2"), None);
    assert_eq!(password_from_auth_value("000"), None);
    assert_eq!(password_from_auth_value(""), None);
    for password in ["", "a", "0002", "p\u{e4}ssw\u{f6}rd", "with space"] {
        assert_eq!(
            password_from_auth_value(&pkcs11_auth_value(password)),
            Some(password.to_string())
        );
    }
}

#[test]
fn bootstrap_lays_out_the_directory_of_an_authority() {
    let spec = key_spec("root-a", 3, Purpose::Identity, Digest::Sha256);
    let layout = bootstrap_ca(&spec);
    assert_eq!(
        layout.directories,
        vec![
            DirEntry { name: "crl".to_string(), restricted: false },
            DirEntry { name: "newcerts".to_string(), restricted: false },
            DirEntry { name: "private".to_string(), restricted: true },
        ]
    );
    assert_eq!(PRIVATE_DIR_MODE, 0o700);
    assert_eq!(
        layout.files,
        vec![
            FileEntry { name: "index.txt".to_string(), content: String::new() },
            FileEntry { name: "serial".to_string(), content: "1000".to_string() },
            FileEntry {
                name: "openssl.cnf".to_string(),
                content: expected_config(3, Digest::Sha256),
            },
        ]
    );
}

#[test]
fn ca_initialize_plans_the_founding_of_an_authority() {
    let spec = key_spec("root-a", 0x0101, Purpose::ProductionCodeSigningCA, Digest::Sha384);
    let plan = ca_initialize(&spec, "{\"label\":\"root-a\"}", "ca-state", "/tmp/work").unwrap();
    assert_eq!(plan.ca_dir, "ca-state/root-a");
    assert_eq!(
        plan.key_spec_copy,
        FileEntry { name: CA_KEY_SPEC.to_string(), content: "{\"label\":\"root-a\"}".to_string() }
    );
    assert_eq!(plan.layout, bootstrap_ca(&spec));
    assert_eq!(plan.csr_path, "/tmp/work/root-a.csr.pem");
    assert_eq!(plan.cert_copy, "/tmp/work/root-a.cert.pem");
    assert_eq!(plan.request.program, ENGINE_PROGRAM);
    assert_eq!(plan.request.working_dir, "ca-state/root-a");
    assert_eq!(
        plan.request.args,
        strings(&[
            "req",
            "-config",
            "openssl.cnf",
            "-new",
            "-subj",
            "/CN=Example Root/",
            "-engine",
            "pkcs11",
            "-keyform",
            "engine",
            "-key",
            "0:0257",
            "-passin",
            "env:OKM_HSM_PKCS11_AUTH",
            "-out",
            "/tmp/work/root-a.csr.pem",
        ])
    );
    assert_eq!(plan.self_sign.program, "openssl");
    assert_eq!(plan.self_sign.working_dir, "ca-state/root-a");
    assert_eq!(
        plan.self_sign.args,
        strings(&[
            "ca",
            "-batch",
            "-selfsign",
            "-config",
            "openssl.cnf",
            "-engine",
            "pkcs11",
            "-keyform",
            "engine",
            "-keyfile",
            "0:0257",
            "-extensions",
            "v3_code_signing_prod_ca",
            "-passin",
            "env:OKM_HSM_PKCS11_AUTH",
            "-in",
            "/tmp/work/root-a.csr.pem",
            "-out",
            "ca.cert.pem",
        ])
    );
    assert_eq!(ENGINE_CONFIG, "openssl.cnf");
    assert_eq!(CA_CERT, "ca.cert.pem");
    assert_eq!(CONNECTOR_PROGRAM, "yubihsm-connector");
}

#[test]
fn ca_initialize_takes_every_root_purpose() {
    for (purpose, section) in [
        (Purpose::ProductionCodeSigningCA, "v3_code_signing_prod_ca"),
        (Purpose::DevelopmentCodeSigningCA, "v3_code_signing_dev_ca"),
        (Purpose::Identity, "v3_identity"),
    ] {
        let spec = key_spec("root", 1, purpose, Digest::Sha256);
        let plan = ca_initialize(&spec, "", "state", "tmp").unwrap();
        assert_eq!(plan.self_sign.args[12], section);
    }
}

#[test]
fn ca_initialize_refuses_a_signing_key() {
    for purpose in [Purpose::ProductionCodeSigning, Purpose::DevelopmentCodeSigning] {
        let spec = key_spec("leaf", 1, purpose, Digest::Sha256);
        assert_eq!(ca_initialize(&spec, "", "state", "tmp"), Err(HsmError::BadPurpose));
    }
}

#[test]
fn ca_sign_selects_the_profile_of_the_authority() {
    let csr = CsrSpec::new("root-a", "-----BEGIN CERTIFICATE REQUEST-----\nabc\n").unwrap();
    let spec = key_spec("root-a", 0x0101, Purpose::ProductionCodeSigningCA, Digest::Sha384);
    let job =
        ca_sign_csrspec("gimlet.csrspec.json", &csr, &spec, "/tmp/work", "ca-state", "/out")
            .unwrap();
    assert_eq!(
        job.csr_file,
        FileEntry {
            name: "/tmp/work/gimlet.csr.pem".to_string(),
            content: "-----BEGIN CERTIFICATE REQUEST-----\nabc\n".to_string(),
        }
    );
    assert_eq!(job.cert_path, "/out/gimlet.cert.pem");
    assert_eq!(job.invocation.program, "openssl");
    assert_eq!(job.invocation.working_dir, "ca-state/root-a");
    assert_eq!(
        job.invocation.args,
        strings(&[
            "ca",
            "-batch",
            "-config",
            "openssl.cnf",
            "-engine",
            "pkcs11",
            "-keyform",
            "engine",
            "-keyfile",
            "0:0257",
            "-extensions",
            "v3_code_signing_prod",
            "-passin",
            "env:OKM_HSM_PKCS11_AUTH",
            "-in",
            "/tmp/work/gimlet.csr.pem",
            "-out",
            "/out/gimlet.cert.pem",
        ])
    );
}

#[test]
fn ca_sign_profiles_for_the_other_authorities() {
    let csr = CsrSpec::new("root", "csr").unwrap();
    let identity = key_spec("root", 2, Purpose::Identity, Digest::Sha256);
    let job = ca_sign_csrspec("device.csrspec.json", &csr, &identity, "t", "s", "p").unwrap();
    assert_eq!(job.invocation.args[11], "v3_identity");
    let dev = key_spec("root", 2, Purpose::DevelopmentCodeSigningCA, Digest::Sha256);
    let job = ca_sign_csrspec("device.csrspec.json", &csr, &dev, "t", "s", "p").unwrap();
    assert_eq!(job.invocation.args[11], "v3_code_signing_dev");
    for purpose in [Purpose::ProductionCodeSigning, Purpose::DevelopmentCodeSigning] {
        let leaf = key_spec("root", 2, purpose, Digest::Sha256);
        assert_eq!(
            ca_sign_csrspec("device.csrspec.json", &csr, &leaf, "t", "s", "p"),
            Err(HsmError::BadPurpose)
        );
    }
}

#[test]
fn ca_sign_names_files_by_the_stem_of_the_request() {
    let csr = CsrSpec::new("root", "csr").unwrap();
    let spec = key_spec("root", 2, Purpose::Identity, Digest::Sha256);
    let job = ca_sign_csrspec("nodots", &csr, &spec, "t", "s", "p").unwrap();
    assert_eq!(job.csr_file.name, "t/nodots.csr.pem");
    assert_eq!(job.cert_path, "p/nodots.cert.pem");
    let job = ca_sign_csrspec("a.b.csrspec.json", &csr, &spec, "t", "s", "p").unwrap();
    assert_eq!(job.csr_file.name, "t/a.csr.pem");
    assert_eq!(job.cert_path, "p/a.cert.pem");
}

#[test]
fn key_spec_of_an_authority_is_kept_under_its_label() {
    let csr = CsrSpec::new("root-a", "csr").unwrap();
    assert_eq!(key_spec_path("ca-state", &csr), "ca-state/root-a/key.spec");
}
