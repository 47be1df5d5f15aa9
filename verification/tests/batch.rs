use oks::batch::{
    ca_sign, initialize_all_ca, load_all_ca, sign_all, BatchError, CaRegistry, SignPlan,
    SignRequest, SignTask,
};
use oks::config::{Digest, KeyAlgorithm, KeySpec, Purpose, SpecKind};
use oks::engine::{SessionAction, SessionEvent, SessionOutcome};
use oks::error::HsmError;

fn spec(label: &str, purpose: Purpose) -> KeySpec {
    KeySpec::new("cn", 1, KeyAlgorithm::EcP384, 0, 1, Digest::Sha384, label, purpose).unwrap()
}

fn request(file_name: &str, label: &str) -> SignRequest {
    SignRequest { file_name: file_name.to_string(), label: label.to_string() }
}

#[test]
fn a_registry_knows_its_authorities_by_label() {
    let mut registry = CaRegistry::new();
    assert_eq!(registry.len(), 0);
    assert_eq!(registry.find("root-a"), None);
    assert_eq!(registry.insert(spec("root-a", Purpose::Identity)), Ok(()));
    assert_eq!(registry.insert(spec("root-b", Purpose::Identity)), Ok(()));
    assert_eq!(registry.len(), 2);
    assert_eq!(registry.find("root-a"), Some(0));
    assert_eq!(registry.find("root-b"), Some(1));
    assert_eq!(registry.find("root-c"), None);
    assert_eq!(registry.find("root-"), None);
    assert_eq!(registry.get(1).map(|s| s.label()), Some("root-b"));
    assert_eq!(registry.get(2), None);
    assert_eq!(
        registry.insert(spec("root-a", Purpose::ProductionCodeSigningCA)),
        Err(BatchError::DuplicateLabel)
    );
    assert_eq!(registry.len(), 2);
    assert_eq!(registry.get(0).map(|s| s.purpose()), Some(Purpose::Identity));
}

#[test]
fn authorities_are_founded_on_distinct_root_keys() {
    let specs = vec![
        spec("a", Purpose::ProductionCodeSigningCA),
        spec("b", Purpose::DevelopmentCodeSigningCA),
        spec("c", Purpose::Identity),
    ];
    let registry = initialize_all_ca(&specs).unwrap();
    assert_eq!(registry.len(), 3);
    assert_eq!(registry.find("b"), Some(1));
    assert_eq!(registry.get(2), Some(&specs[2]));
}

#[test]
fn founding_reports_the_first_fault() {
    assert_eq!(initialize_all_ca(&Vec::new()), Err(BatchError::NoSpecFiles));
    let duplicate = vec![spec("a", Purpose::Identity), spec("a", Purpose::Identity)];
    assert_eq!(initialize_all_ca(&duplicate), Err(BatchError::DuplicateLabel));
    let leaf = vec![spec("a", Purpose::Identity), spec("b", Purpose::ProductionCodeSigning)];
    assert_eq!(initialize_all_ca(&leaf), Err(BatchError::Spec(HsmError::BadPurpose)));
    let leaf_first = vec![
        spec("a", Purpose::DevelopmentCodeSigning),
        spec("b", Purpose::Identity),
        spec("b", Purpose::Identity),
    ];
    assert_eq!(initialize_all_ca(&leaf_first), Err(BatchError::Spec(HsmError::BadPurpose)));
    let duplicate_first = vec![
        spec("a", Purpose::Identity),
        spec("a", Purpose::Identity),
        spec("c", Purpose::DevelopmentCodeSigning),
    ];
    assert_eq!(initialize_all_ca(&duplicate_first), Err(BatchError::DuplicateLabel));
    let duplicate_leaf = vec![spec("a", Purpose::Identity), spec("a", Purpose::ProductionCodeSigning)];
    assert_eq!(initialize_all_ca(&duplicate_leaf), Err(BatchError::Spec(HsmError::BadPurpose)));
}

#[test]
fn loading_only_asks_for_distinct_labels() {
    assert_eq!(load_all_ca(&Vec::new()).map(|r| r.len()), Ok(0));
    let specs = vec![spec("a", Purpose::ProductionCodeSigning), spec("b", Purpose::Identity)];
    assert_eq!(load_all_ca(&specs).map(|r| r.len()), Ok(2));
    let duplicate = vec![spec("a", Purpose::Identity), spec("b", Purpose::Identity), spec("a", Purpose::Identity)];
    assert_eq!(load_all_ca(&duplicate), Err(BatchError::DuplicateLabel));
}

#[test]
fn ca_sign_selects_one_file_or_the_requests_of_a_directory() {
    let (requests, mut session) = ca_sign(true, "/in/one.csrspec.json", None).unwrap();
    assert_eq!(requests, vec!["/in/one.csrspec.json".to_string()]);
    assert_eq!(session.jobs(), 1);
    session.step(SessionEvent::Begin);
    session.step(SessionEvent::ConnectorStarted);
    session.step(SessionEvent::Completed(false));
    assert_eq!(
        session.step(SessionEvent::ConnectorStopped),
        SessionAction::Finish(SessionOutcome::Failed(HsmError::CertGenFail))
    );

    let listing: Vec<String> = ["/in/b.csrspec.json", "/in/a.keyspec.json", "/in/a.csrspec.json", "/in/x.dcsrspec.json"]
        .iter()
        .map(|s| s.to_string())
        .collect();
    let (requests, session) = ca_sign(false, "/in", Some(&listing)).unwrap();
    assert_eq!(requests, vec!["/in/b.csrspec.json".to_string(), "/in/a.csrspec.json".to_string()]);
    assert_eq!(session.jobs(), 2);
    let (requests, session) = ca_sign(true, "/in", Some(&listing)).unwrap();
    assert_eq!(requests, vec!["/in".to_string()]);
    assert_eq!(session.jobs(), 1);
    let (requests, session) = ca_sign(false, "/in", Some(&Vec::new())).unwrap();
    assert!(requests.is_empty());
    assert_eq!(session.jobs(), 0);
}

#[test]
fn ca_sign_refuses_what_is_neither_file_nor_directory() {
    assert_eq!(ca_sign(false, "/nowhere", None).err(), Some(HsmError::BadSpecDirectory));
}

#[test]
fn sign_all_finds_the_authority_of_each_request() {
    let registry = initialize_all_ca(&vec![
        spec("prod", Purpose::ProductionCodeSigningCA),
        spec("identity", Purpose::Identity),
    ])
    .unwrap();
    let requests = vec![
        request("gimlet.csrspec.json", "prod"),
        request("notes.txt", "prod"),
        request("sled.dcsrspec.json", "identity"),
        request("psc.csrspec.json", "identity"),
        request("root.keyspec.json", "prod"),
    ];
    assert_eq!(
        sign_all(&registry, &requests),
        SignPlan {
            tasks: vec![
                SignTask { request: 0, kind: SpecKind::Csr, authority: 0, stem: "gimlet".to_string() },
                SignTask { request: 2, kind: SpecKind::Dcsr, authority: 1, stem: "sled".to_string() },
                SignTask { request: 3, kind: SpecKind::Csr, authority: 1, stem: "psc".to_string() },
            ],
            stopped: None,
        }
    );
}

#[test]
fn sign_all_stops_at_a_request_without_authority() {
    let registry = initialize_all_ca(&vec![spec("prod", Purpose::ProductionCodeSigningCA)]).unwrap();
    let requests = vec![
        request("a.csrspec.json", "prod"),
        request("b.csrspec.json", "unknown"),
        request("c.csrspec.json", "prod"),
    ];
    assert_eq!(
        sign_all(&registry, &requests),
        SignPlan {
            tasks: vec![SignTask {
                request: 0,
                kind: SpecKind::Csr,
                authority: 0,
                stem: "a".to_string(),
            }],
            stopped: Some(BatchError::NoAuthority),
        }
    );
    let unknown_is_no_request = vec![request("b.txt", "unknown"), request("c.csrspec.json", "prod")];
    let plan = sign_all(&registry, &unknown_is_no_request);
    assert_eq!(plan.stopped, None);
    assert_eq!(plan.tasks.len(), 1);
    assert_eq!(plan.tasks[0].request, 1);
}

#[test]
fn sign_all_refuses_an_empty_batch() {
    let registry = CaRegistry::new();
    assert_eq!(
        sign_all(&registry, &Vec::new()),
        SignPlan { tasks: Vec::new(), stopped: Some(BatchError::NoSpecFiles) }
    );
    let plan = sign_all(&registry, &vec![request("a.csrspec.json", "prod")]);
    assert_eq!(plan, SignPlan { tasks: Vec::new(), stopped: Some(BatchError::NoAuthority) });
}
