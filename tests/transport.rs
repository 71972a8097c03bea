use lildbsh::transport::{build_endpoint, uses_encryption, CaCertificate, SetupError, TransportPlan, KEEP_ALIVE_TIMEOUT_SECS};

#[test]
fn encryption_follows_scheme_or_certificate() {
    assert!(uses_encryption("https://db.example:443", &None));
    assert!(uses_encryption("grpc://host:1", &Some("ca.pem".to_string())));
    assert!(!uses_encryption("grpc://host:1", &None));
    assert!(!uses_encryption("http://host:1", &None));
    assert!(uses_encryption("http://host:1", &Some("ca.pem".to_string())));
    assert!(!uses_encryption("", &None));
    assert!(uses_encryption("HTTPS://db:1", &None));
    assert!(uses_encryption("HtTpS://db:1", &None));
    assert!(!uses_encryption("https:/db:1", &None));
    assert!(!uses_encryption("https", &None));
}

#[test]
fn plan_records_its_inputs() {
    let plan = TransportPlan::new("https://db:1".to_string(), None, Some("db.local".to_string()));
    assert!(plan.encrypted);
    assert_eq!(plan.address, "https://db:1");
    assert_eq!(plan.domain, Some("db.local".to_string()));
    let plain = TransportPlan::new("grpc://host:1".to_string(), None, None);
    assert!(!plain.encrypted);
}

#[test]
fn keep_alive_timeout_is_thirty_seconds() {
    assert_eq!(KEEP_ALIVE_TIMEOUT_SECS, 30);
}

#[test]
fn unparsable_address_is_refused() {
    let plan = TransportPlan::new("not an address".to_string(), None, None);
    assert_eq!(build_endpoint(&plan, CaCertificate::NotGiven).err(), Some(SetupError::InvalidAddress));
}

#[test]
fn plain_address_builds_an_endpoint() {
    let plan = TransportPlan::new("grpc://host:1".to_string(), None, None);
    let endpoint = build_endpoint(&plan, CaCertificate::NotGiven).ok().expect("endpoint");
    assert_eq!(endpoint.uri().host(), Some("host"));
    assert_eq!(endpoint.uri().port_u16(), Some(1));
}

#[test]
fn encrypted_address_builds_an_endpoint() {
    let plan = TransportPlan::new("https://localhost:50051".to_string(), None, None);
    assert!(build_endpoint(&plan, CaCertificate::NotGiven).is_ok());
}

#[test]
fn bad_server_name_is_a_tls_error() {
    let plan = TransportPlan::new("https://localhost:50051".to_string(), None, Some("not a name".to_string()));
    assert_eq!(build_endpoint(&plan, CaCertificate::NotGiven).err(), Some(SetupError::InvalidTls));
}

#[test]
fn malformed_certificate_is_a_tls_error() {
    let plan = TransportPlan::new("grpc://host:1".to_string(), Some("ca.pem".to_string()), None);
    let pem = "-----BEGIN CERTIFICATE-----\n!!!!\n-----END CERTIFICATE-----\n".to_string();
    assert_eq!(build_endpoint(&plan, CaCertificate::Read(pem)).err(), Some(SetupError::InvalidTls));
}

#[test]
fn unreadable_certificate_stops_setup() {
    let plan = TransportPlan::new("grpc://host:1".to_string(), Some("missing.pem".to_string()), None);
    let ca = CaCertificate::Unreadable("missing.pem: not found".to_string());
    assert_eq!(
        build_endpoint(&plan, ca).err(),
        Some(SetupError::UnreadableCertificate("missing.pem: not found".to_string()))
    );
}

#[test]
fn invalid_address_is_reported_before_the_certificate() {
    let plan = TransportPlan::new("not an address".to_string(), Some("ca.pem".to_string()), None);
    let ca = CaCertificate::Unreadable("ca.pem: denied".to_string());
    assert_eq!(build_endpoint(&plan, ca).err(), Some(SetupError::InvalidAddress));
}

#[test]
fn upper_case_scheme_gets_tls() {
    let plan = TransportPlan::new("HTTPS://localhost:50051".to_string(), None, Some("not a name".to_string()));
    assert!(plan.encrypted);
    assert_eq!(build_endpoint(&plan, CaCertificate::NotGiven).err(), Some(SetupError::InvalidTls));
}

#[test]
fn empty_certificate_text_is_accepted() {
    let plan = TransportPlan::new("grpc://localhost:1".to_string(), Some("ca.pem".to_string()), None);
    assert!(build_endpoint(&plan, CaCertificate::Read(String::new())).is_ok());
}
