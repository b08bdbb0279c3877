use cavin_tools::ca::{ca_cert_dir, ca_cert_file, ca_key_file, CaManager};
use x509_parser::prelude::{parse_x509_pem, GeneralName};

fn parse_cert(pem: &str) -> x509_parser::pem::Pem {
    let (_, parsed) = parse_x509_pem(pem.as_bytes()).expect("valid PEM");
    parsed
}

#[test]
fn initializer_generates_once_and_reloads_verbatim() {
    // First initialization: nothing stored, so a pair is generated and
    // handed back for persisting.
    let (manager, persist) =
        CaManager::new("/tmp/capture".to_string(), None).expect("generation succeeds");
    let (cert_pem, key_pem) = persist.expect("a fresh pair must be persisted");
    assert_eq!(manager.get_ca_cert_pem(), cert_pem);

    // Second initialization against the same storage: the stored pair is
    // returned byte-identically and nothing is regenerated.
    let (reloaded, persist_again) = CaManager::new(
        "/tmp/capture".to_string(),
        Some((cert_pem.clone(), key_pem.clone())),
    )
    .expect("loading succeeds");
    assert!(persist_again.is_none(), "an existing pair is never regenerated");
    assert_eq!(reloaded.get_ca_cert_pem(), cert_pem);
}

#[test]
fn ca_certificate_is_a_ca_with_the_expected_subject() {
    let (manager, _) = CaManager::new("/tmp/capture".to_string(), None).unwrap();
    let pem = parse_cert(&manager.get_ca_cert_pem());
    let cert = pem.parse_x509().unwrap();
    assert!(cert.subject().to_string().contains("Cavin Tools Local CA"));
    assert!(cert.is_ca());
    // Ten years of validity, within a day of slack.
    let lifetime = cert.validity().not_after.timestamp() - cert.validity().not_before.timestamp();
    assert!((lifetime - 3650 * 86400).abs() <= 86400, "lifetime was {}", lifetime);
}

#[test]
fn leaf_has_exactly_the_domain_as_san_and_one_year_validity() {
    let (manager, _) = CaManager::new("/tmp/capture".to_string(), None).unwrap();
    let (leaf_pem, leaf_key_pem) = manager.sign_cert_for_domain("example.com").unwrap();
    assert!(leaf_key_pem.contains("PRIVATE KEY"));

    let ca_pem = parse_cert(&manager.get_ca_cert_pem());
    let ca_cert = ca_pem.parse_x509().unwrap();

    let pem = parse_cert(&leaf_pem);
    let cert = pem.parse_x509().unwrap();

    // The sole SAN equals the input exactly.
    let san = cert
        .subject_alternative_name()
        .unwrap()
        .expect("the leaf carries a subject alternative name");
    let names: Vec<_> = san.value.general_names.iter().collect();
    assert_eq!(names.len(), 1);
    match names[0] {
        GeneralName::DNSName(name) => assert_eq!(*name, "example.com"),
        other => panic!("unexpected SAN kind: {:?}", other),
    }

    // The issuer matches the CA subject.
    assert_eq!(cert.issuer().to_string(), ca_cert.subject().to_string());

    // One year of validity, within a day of slack.
    let lifetime = cert.validity().not_after.timestamp() - cert.validity().not_before.timestamp();
    assert!((lifetime - 365 * 86400).abs() <= 86400, "lifetime was {}", lifetime);
}

#[test]
fn each_leaf_is_freshly_signed() {
    let (manager, _) = CaManager::new("/tmp/capture".to_string(), None).unwrap();
    let (first, _) = manager.sign_cert_for_domain("example.com").unwrap();
    let (second, _) = manager.sign_cert_for_domain("example.com").unwrap();
    assert_ne!(first, second, "every call signs a fresh single-use key pair");
}

#[test]
fn non_ascii_domain_is_rejected() {
    let (manager, _) = CaManager::new("/tmp/capture".to_string(), None).unwrap();
    let err = manager.sign_cert_for_domain("bücher.example").unwrap_err();
    assert!(err.starts_with("Invalid domain: "), "error was: {}", err);
}

#[test]
fn ca_paths_follow_the_storage_layout() {
    let dir = ca_cert_dir("/data/app");
    assert_eq!(dir, "/data/app/certificates");
    assert_eq!(ca_cert_file(&dir), "/data/app/certificates/ca.crt");
    assert_eq!(ca_key_file(&dir), "/data/app/certificates/ca.key");

    let (manager, _) = CaManager::new(dir, None).unwrap();
    assert_eq!(manager.get_ca_cert_path(), "/data/app/certificates/ca.crt");
}

#[test]
fn shared_handle_carries_the_same_material() {
    let (manager, _) = CaManager::new("/tmp/capture".to_string(), None).unwrap();
    let shared = manager.clone_arc();
    assert_eq!(shared.get_ca_cert_pem(), manager.get_ca_cert_pem());
}
