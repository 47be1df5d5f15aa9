use oks::config::{
    files_with_ext, spec_kind, CsrSpec, Digest, KeyAlgorithm, KeySpec, Purpose, SpecKind,
    CSRSPEC_EXT, DCSRSPEC_EXT, KEYSPEC_EXT,
};
use oks::error::HsmError;

fn names(list: &[&str]) -> Vec<String> {
    list.iter().map(|s| s.to_string()).collect()
}

#[test]
fn purposes_of_authorities_and_of_their_certificates() {
    assert_eq!(
        Purpose::ProductionCodeSigningCA.leaf_purpose(),
        Ok(Purpose::ProductionCodeSigning)
    );
    assert_eq!(
        Purpose::DevelopmentCodeSigningCA.leaf_purpose(),
        Ok(Purpose::DevelopmentCodeSigning)
    );
    assert_eq!(Purpose::Identity.leaf_purpose(), Ok(Purpose::Identity));
    assert_eq!(Purpose::ProductionCodeSigning.leaf_purpose(), Err(HsmError::BadPurpose));
    assert_eq!(Purpose::DevelopmentCodeSigning.leaf_purpose(), Err(HsmError::BadPurpose));
    assert!(Purpose::ProductionCodeSigningCA.ca_eligible());
    assert!(Purpose::DevelopmentCodeSigningCA.ca_eligible());
    assert!(Purpose::Identity.ca_eligible());
    assert!(!Purpose::ProductionCodeSigning.ca_eligible());
    assert!(!Purpose::DevelopmentCodeSigning.ca_eligible());
}

#[test]
fn purposes_name_their_extension_sections() {
    assert_eq!(Purpose::ProductionCodeSigningCA.extension_section(), "v3_code_signing_prod_ca");
    assert_eq!(Purpose::DevelopmentCodeSigningCA.extension_section(), "v3_code_signing_dev_ca");
    assert_eq!(Purpose::ProductionCodeSigning.extension_section(), "v3_code_signing_prod");
    assert_eq!(Purpose::DevelopmentCodeSigning.extension_section(), "v3_code_signing_dev");
    assert_eq!(Purpose::Identity.extension_section(), "v3_identity");
}

#[test]
fn digests_have_their_names() {
    assert_eq!(Digest::Sha256.digest_name(), "Sha256");
    assert_eq!(Digest::Sha384.digest_name(), "Sha384");
    assert_eq!(Digest::Sha256.digest_name(), format!("{:?}", Digest::Sha256));
    assert_eq!(Digest::Sha384.digest_name(), format!("{:?}", Digest::Sha384));
}

#[test]
fn files_are_told_apart_by_their_endings() {
    assert_eq!(KEYSPEC_EXT, ".keyspec.json");
    assert_eq!(CSRSPEC_EXT, ".csrspec.json");
    assert_eq!(DCSRSPEC_EXT, ".dcsrspec.json");
    assert_eq!(spec_kind("root.keyspec.json"), Some(SpecKind::Key));
    assert_eq!(spec_kind("leaf.csrspec.json"), Some(SpecKind::Csr));
    assert_eq!(spec_kind("leaf.dcsrspec.json"), Some(SpecKind::Dcsr));
    assert_eq!(spec_kind("/in/put/leaf.csrspec.json"), Some(SpecKind::Csr));
    assert_eq!(spec_kind("leaf.json"), None);
    assert_eq!(spec_kind("leaf.csrspec.json~"), None);
    assert_eq!(spec_kind(""), None);
}

#[test]
fn files_with_ext_keeps_order_and_drops_the_rest() {
    let found = names(&[
        "b.keyspec.json",
        "readme.txt",
        "a.keyspec.json",
        "c.csrspec.json",
        ".keyspec.json",
        "x.keyspec.json.orig",
    ]);
    assert_eq!(
        files_with_ext(&found, KEYSPEC_EXT),
        names(&["b.keyspec.json", "a.keyspec.json", ".keyspec.json"])
    );
    assert_eq!(files_with_ext(&found, CSRSPEC_EXT), names(&["c.csrspec.json"]));
    assert_eq!(files_with_ext(&found, DCSRSPEC_EXT), Vec::<String>::new());
    assert_eq!(files_with_ext(&Vec::new(), KEYSPEC_EXT), Vec::<String>::new());
    assert_eq!(files_with_ext(&found, "").len(), 6);
}

fn spec_with(label: &str, domain: usize) -> Result<KeySpec, HsmError> {
    KeySpec::new(
        "Root A",
        0x0101,
        KeyAlgorithm::EcP384,
        0x80,
        domain,
        Digest::Sha384,
        label,
        Purpose::ProductionCodeSigningCA,
    )
}

#[test]
fn key_spec_keeps_its_fields() {
    let spec = spec_with("root-a", 1).unwrap();
    assert_eq!(spec.common_name(), "Root A");
    assert_eq!(spec.id(), 0x0101);
    assert_eq!(spec.algorithm(), KeyAlgorithm::EcP384);
    assert_eq!(spec.capabilities(), 0x80);
    assert_eq!(spec.domain(), 0x0001);
    assert_eq!(spec.hash(), Digest::Sha384);
    assert_eq!(spec.label(), "root-a");
    assert_eq!(spec.purpose(), Purpose::ProductionCodeSigningCA);
    assert_eq!(spec.duplicate(), spec);
}

#[test]
fn key_spec_domains_are_numbered_from_one_to_sixteen() {
    for number in 1usize..=16 {
        let spec = spec_with("root", number).unwrap();
        assert_eq!(spec.domain(), 1u16 << (number - 1));
    }
    assert_eq!(spec_with("root", 0), Err(HsmError::BadDomain));
    assert_eq!(spec_with("root", 17), Err(HsmError::BadDomain));
    assert_eq!(spec_with("root", usize::MAX), Err(HsmError::BadDomain));
}

#[test]
fn key_spec_labels_must_fit_forty_bytes() {
    let forty = "a".repeat(40);
    let forty_one = "a".repeat(41);
    assert!(spec_with(&forty, 1).is_ok());
    assert!(spec_with("", 1).is_ok());
    assert_eq!(spec_with(&forty_one, 1), Err(HsmError::BadLabel));
    let twenty_two_byte_pairs = "\u{e9}".repeat(20);
    assert!(spec_with(&twenty_two_byte_pairs, 1).is_ok());
    let too_many_bytes = "\u{e9}".repeat(21);
    assert_eq!(spec_with(&too_many_bytes, 1), Err(HsmError::BadLabel));
    assert_eq!(spec_with(&forty_one, 0), Err(HsmError::BadLabel));
}

#[test]
fn csr_spec_checks_its_label() {
    let spec = CsrSpec::new("root-a", "-----BEGIN CERTIFICATE REQUEST-----\n").unwrap();
    assert_eq!(spec.label(), "root-a");
    assert_eq!(spec.csr(), "-----BEGIN CERTIFICATE REQUEST-----\n");
    assert_eq!(CsrSpec::new(&"x".repeat(41), "csr"), Err(HsmError::BadLabel));
    assert!(CsrSpec::new(&"x".repeat(40), "").is_ok());
}
