use parallel_markets_client::{
    decode_response, parse_number, AccreditationStatus, AccreditationsResponse, BusinessType,
    ClientError, CountryCode, Date, Decode, DependencyIdentityResponse, DocumentType, EntityType,
    Error, EventType, IdentityDocumentType, IdentityResponse, IndividualAssertionType, JsonValue,
    MaritalStatus, ProfileResponse, ProvidingFor, RevokeType, Scope, Timestamp, Union, WebhookData,
};

fn convert(v: &serde_json::Value) -> JsonValue {
    match v {
        serde_json::Value::Null => JsonValue::Null,
        serde_json::Value::Bool(b) => JsonValue::Bool(*b),
        serde_json::Value::Number(n) => JsonValue::Number(n.to_string()),
        serde_json::Value::String(s) => JsonValue::Str(s.clone()),
        serde_json::Value::Array(items) => JsonValue::Array(items.iter().map(convert).collect()),
        serde_json::Value::Object(m) => {
            JsonValue::Object(m.iter().map(|(k, x)| (k.clone(), convert(x))).collect())
        }
    }
}

fn json(text: &str) -> JsonValue {
    convert(&serde_json::from_str::<serde_json::Value>(text).unwrap())
}

const INDIVIDUAL_PROFILE: &str = r#"{
  "id": "RW50aXR5OjE=",
  "type": "individual",
  "profile": {"first_name": "Ada", "last_name": "Lovelace", "email": "ada@example.com"},
  "user_id": "VXNlcjox",
  "user_profile": {"first_name": "Ada", "last_name": "Lovelace", "email": "ada@example.com"},
  "user_providing_for": "self",
  "access_expires_at": null,
  "access_revoked_by": null
}"#;

const BUSINESS_PROFILE: &str = r#"{
  "id": "QnVzaW5lc3M6Mg==",
  "type": "business",
  "profile": {"name": "Acme Holdings", "business_type": "C Corporation",
              "primary_contact": {"first_name": "Grace", "last_name": "Hopper"}},
  "user_id": "VXNlcjoy",
  "user_profile": {"first_name": "Grace", "last_name": "Hopper", "email": null},
  "user_providing_for": "controlled-business",
  "access_expires_at": "2023-01-02T03:04:05Z",
  "access_revoked_by": "partner"
}"#;

const ACCREDITATIONS: &str = r#"{
  "id": "RW50aXR5OjE=",
  "type": "individual",
  "user_id": "VXNlcjox",
  "indicated_unaccredited": null,
  "accreditations": [{
    "id": "QWNjcmVkOjE=",
    "status": "current",
    "expires_at": 1700000000,
    "assertion_type": "net-worth",
    "created_at": 1650000000,
    "certified_at": 1650000100,
    "first_name": "Ada",
    "last_name": "Lovelace",
    "documents": [{"download_url": "https://example.com/letter.pdf",
                   "download_url_expires": 3600, "type": "certification-letter"}]
  }]
}"#;

const BUSINESS_IDENTITY: &str = r#"{
  "id": "QnVzaW5lc3M6Mg==",
  "type": "business",
  "identity_details": {
    "business_type": "Partnership LLC",
    "completed_at": "2022-05-01T12:00:00Z",
    "control_persons": [{"id": "VXNlcjoyODIw", "type": "individual", "title": "CEO",
                         "profile": {"first_name": "Grace", "last_name": "Hopper"}}],
    "created_by": {"first_name": "Grace", "last_name": "Hopper"},
    "direct_beneficial_owners": [{"id": null, "type": "business", "ownership_percent": 25.5,
                                  "profile": {"name": "Holdco", "business_type": "S Corporation"}}],
    "expires_at": "2024-05-01T12:00:00+02:00",
    "foreign_tax_id": "",
    "identity_files": [{"download_url": "https://example.com/id.pdf",
                        "download_url_expires": 600, "type": "state-id-card"}],
    "incorporation_country": "US",
    "incorporation_state": "DE",
    "name": "Acme Holdings",
    "primary_contact": {"first_name": "Grace", "last_name": "Hopper"},
    "principal_location": {"address_one": "1 Main St", "address_two": "", "city": "Dover",
                           "region": null, "postal_code": "19901", "state": "DE", "country": "US"},
    "risk_monitor_matches": [{"adverse_media": false, "currently_sanctioned": true,
                              "disqualified_director": false, "financial_regulator": false,
                              "insolvent": false, "law_enforcement": false, "name": "Acme",
                              "pep": false, "previously_sanctioned": false, "score": 87,
                              "website": "https://acme.example"}],
    "us_tax_id": "12-3456789",
    "user_session": {"maybe_anonymizing_proxy": false}
  },
  "user_id": "VXNlcjoy",
  "user_providing_for": "controlled-business",
  "access_expires_at": null,
  "access_revoked_by": null
}"#;

const INDIVIDUAL_IDENTITY: &str = r#"{
  "id": "RW50aXR5OjE=",
  "type": "individual",
  "identity_details": {
    "birth_date": "1990-01-31",
    "citizenship_country": "GB",
    "completed_at": "2022-05-01T12:00:00Z",
    "created_by": {"first_name": "Ada", "last_name": "Lovelace"},
    "domicile_location": {"address_one": "2 High St", "address_two": "Flat 3", "city": "London",
                          "region": "Greater London", "postal_code": "N1", "state": null,
                          "country": "GB"},
    "email": "ada@example.com",
    "expires_at": "2024-05-01T12:00:00Z",
    "first_name": "Ada",
    "last_name": "Lovelace",
    "identity_files": [],
    "marital_status": "married",
    "phone": "+441234567890",
    "residence_location": {"address_one": "2 High St", "address_two": "", "city": "London",
                           "postal_code": "N1", "country": "GB"},
    "risk_monitor_matches": [{"adverse_media": true, "birth_date": "1990-01-31",
                              "currently_sanctioned": false, "deceased": false,
                              "disqualified_director": false, "financial_regulator": false,
                              "insolvent": false, "first_name": "Ada", "middle_name": "",
                              "last_name": "Lovelace", "law_enforcement": false,
                              "nationality": "British", "pep": true,
                              "previously_sanctioned": false, "score": 42}],
    "us_tax_id": "",
    "foreign_tax_id": "AB123456C",
    "user_session": {"maybe_anonymizing_proxy": true}
  },
  "user_id": "VXNlcjox",
  "access_expires_at": null,
  "access_revoked_by": "subject"
}"#;

#[test]
fn individual_profile_payload_decodes() {
    let r: ProfileResponse = decode_response(&json(INDIVIDUAL_PROFILE)).unwrap();
    assert_eq!(r.id, "RW50aXR5OjE=");
    assert_eq!(r.entity_type, EntityType::Individual);
    match &r.profile {
        Union::Left(p) => {
            assert_eq!(p.first_name, "Ada");
            assert_eq!(p.last_name, "Lovelace");
            assert_eq!(p.email.as_deref(), Some("ada@example.com"));
        }
        Union::Right(_) => panic!("an individual payload was read as a business"),
    }
    assert_eq!(r.user_id, "VXNlcjox");
    assert_eq!(r.user_profile.first_name, "Ada");
    assert_eq!(r.user_providing_for, ProvidingFor::AsSelf);
    assert!(r.access_expires_at.is_none());
    assert!(r.access_revoked_by.is_none());
}

#[test]
fn business_profile_payload_decodes() {
    let r: ProfileResponse = decode_response(&json(BUSINESS_PROFILE)).unwrap();
    assert_eq!(r.entity_type, EntityType::Business);
    match &r.profile {
        Union::Right(b) => {
            assert_eq!(b.name, "Acme Holdings");
            assert_eq!(b.business_type, BusinessType::CCorporation);
            let c = b.primary_contact.as_ref().unwrap();
            assert_eq!(c.first_name, "Grace");
            assert!(c.email.is_none());
        }
        Union::Left(_) => panic!("a business payload was read as an individual"),
    }
    assert!(r.user_profile.email.is_none());
    assert_eq!(r.user_providing_for, ProvidingFor::ControlledBusiness);
    let t = r.access_expires_at.unwrap();
    assert_eq!(t.unix_seconds, 1672628645);
    assert_eq!(t.offset_seconds, 0);
    assert_eq!(r.access_revoked_by, Some(RevokeType::Partner));
}

#[test]
fn accreditations_payload_decodes() {
    let r: AccreditationsResponse = decode_response(&json(ACCREDITATIONS)).unwrap();
    assert!(r.indicated_unaccredited.is_none());
    match &r.accreditations {
        Union::Left(list) => {
            assert_eq!(list.len(), 1);
            let a = &list[0];
            assert_eq!(a.status, AccreditationStatus::Current);
            assert_eq!(a.assertion_type, IndividualAssertionType::NetWorth);
            assert_eq!(a.expires_at.unwrap().seconds, 1700000000);
            assert_eq!(a.created_at.seconds, 1650000000);
            assert_eq!(a.certified_at.unwrap().seconds, 1650000100);
            assert_eq!(a.documents[0].download_url, "https://example.com/letter.pdf");
            assert_eq!(a.documents[0].document_type, DocumentType::CertificationLetter);
        }
        Union::Right(_) => panic!("individual accreditations were read as business ones"),
    }
}

#[test]
fn document_expiry_stays_in_seconds() {
    let r: AccreditationsResponse = decode_response(&json(ACCREDITATIONS)).unwrap();
    match &r.accreditations {
        Union::Left(list) => assert_eq!(list[0].documents[0].download_url_expires, 3600u64),
        Union::Right(_) => panic!("wrong shape"),
    }
}

#[test]
fn business_identity_payload_decodes() {
    let r: IdentityResponse = decode_response(&json(BUSINESS_IDENTITY)).unwrap();
    let d = match r.identity_details {
        Union::Left(d) => d,
        Union::Right(_) => panic!("a business payload was read as an individual"),
    };
    assert_eq!(d.business_type, BusinessType::PartnershipLLC);
    assert_eq!(d.completed_at.unix_seconds, 1651406400);
    assert_eq!(d.expires_at.offset_seconds, 7200);
    assert_eq!(d.expires_at.unix_seconds, 1714557600);
    assert_eq!(d.control_persons[0].id.as_deref(), Some("VXNlcjoyODIw"));
    assert_eq!(d.control_persons[0].title, "CEO");
    let owner = &d.direct_beneficial_owners[0];
    assert!(owner.id.is_none());
    assert_eq!(owner.reference_type, EntityType::Business);
    assert!(!owner.ownership_percent.negative);
    assert_eq!(owner.ownership_percent.mantissa, 255);
    assert_eq!(owner.ownership_percent.scale, 1);
    match &owner.profile {
        Union::Left(b) => assert_eq!(b.business_type, BusinessType::SCorporation),
        Union::Right(_) => panic!("owner shape"),
    }
    assert_eq!(d.identity_files[0].download_url_expires, 600);
    assert_eq!(d.identity_files[0].document_type, IdentityDocumentType::StateIdCard);
    assert_eq!(d.incorporation_country.code, "US");
    assert_eq!(d.incorporation_state.as_deref(), Some("DE"));
    assert!(d.principal_location.region.is_none());
    assert_eq!(d.principal_location.state.as_deref(), Some("DE"));
    assert!(d.risk_monitor_matches[0].currently_sanctioned);
    assert_eq!(d.risk_monitor_matches[0].score, 87);
    assert_eq!(d.us_tax_id, "12-3456789");
    assert!(!d.user_session.maybe_anonymizing_proxy);
    assert_eq!(r.user_providing_for, ProvidingFor::ControlledBusiness);
}

#[test]
fn dependency_identity_payload_decodes() {
    let r: DependencyIdentityResponse = decode_response(&json(INDIVIDUAL_IDENTITY)).unwrap();
    let d = match r.identity_details {
        Union::Right(d) => d,
        Union::Left(_) => panic!("an individual payload was read as a business"),
    };
    assert_eq!(d.birth_date, Date { year: 1990, month: 1, day: 31 });
    assert_eq!(d.citizenship_country.code, "GB");
    assert_eq!(d.domicile_location.region.as_deref(), Some("Greater London"));
    assert!(d.residence_location.region.is_none());
    assert!(d.residence_location.state.is_none());
    assert_eq!(d.marital_status, MaritalStatus::Married);
    assert_eq!(d.phone, "+441234567890");
    assert!(d.identity_files.is_empty());
    assert!(d.risk_monitor_matches[0].pep);
    assert_eq!(d.risk_monitor_matches[0].score, 42);
    assert_eq!(d.risk_monitor_matches[0].nationality, "British");
    assert_eq!(d.foreign_tax_id.as_deref(), Some("AB123456C"));
    assert!(d.user_session.maybe_anonymizing_proxy);
    assert_eq!(r.access_revoked_by, Some(RevokeType::Subject));
}

#[test]
fn union_matching_neither_shape_is_a_decode_error() {
    let text = INDIVIDUAL_PROFILE.replace(
        r#""profile": {"first_name": "Ada", "last_name": "Lovelace", "email": "ada@example.com"}"#,
        r#""profile": {"nickname": "Ada"}"#,
    );
    let r: Result<ProfileResponse, Error> = decode_response(&json(&text));
    assert!(matches!(r, Err(Error::ClientError(ClientError::Decode))));
}

#[test]
fn unknown_enumeration_value_is_refused() {
    let text = ACCREDITATIONS.replace(r#""status": "current""#, r#""status": "Current""#);
    let r: Result<AccreditationsResponse, Error> = decode_response(&json(&text));
    assert!(matches!(r, Err(Error::ClientError(ClientError::Decode))));
}

#[test]
fn missing_required_field_is_refused() {
    let text = INDIVIDUAL_PROFILE.replace(r#""user_id": "VXNlcjox","#, "");
    let r: Result<ProfileResponse, Error> = decode_response(&json(&text));
    assert!(matches!(r, Err(Error::ClientError(ClientError::Decode))));
}

#[test]
fn webhook_payload_decodes() {
    let text = r#"{"entity": {"id": "RW50aXR5OjE=", "type": "individual"},
                   "event": "pep_risk_monitor_match", "scope": "identity",
                   "connecting_business_id": null}"#;
    let w: WebhookData = decode_response(&json(text)).unwrap();
    assert_eq!(w.entity.entity_type, EntityType::Individual);
    assert_eq!(w.event, EventType::PepRiskMonitorMatch);
    assert_eq!(w.scope, Scope::Identity);
    assert!(w.connecting_business_id.is_none());
}

#[test]
fn scope_text_round_trips() {
    for (s, t) in [
        (Scope::Profile, "profile"),
        (Scope::AccreditationStatus, "accreditation_status"),
        (Scope::Identity, "identity"),
    ] {
        assert_eq!(s.as_str(), t);
        assert_eq!(Scope::from_wire(t), Some(s));
        assert_eq!(Scope::from_wire(s.as_str()), Some(s));
    }
    assert_eq!(Scope::from_wire("Profile"), None);
    assert_eq!(Scope::from_wire("accreditation-status"), None);
}

#[test]
fn irregular_wire_names() {
    assert_eq!(ProvidingFor::from_wire("self"), Some(ProvidingFor::AsSelf));
    assert_eq!(ProvidingFor::AsSelf.as_str(), "self");
    assert_eq!(BusinessType::from_wire("Family Office"), Some(BusinessType::FamilyOffice));
    assert_eq!(IdentityDocumentType::DriversLicense.as_str(), "drivers-license");
    assert_eq!(AccreditationStatus::ThirdPartyPending.as_str(), "third_party_pending");
}

#[test]
fn number_text() {
    assert_eq!(parse_number("-12.50"), Some((true, 1250, 2)));
    assert_eq!(parse_number("3600"), Some((false, 3600, 0)));
    assert_eq!(parse_number("0"), Some((false, 0, 0)));
    assert_eq!(parse_number(""), None);
    assert_eq!(parse_number("-"), None);
    assert_eq!(parse_number(".5"), None);
    assert_eq!(parse_number("5."), None);
    assert_eq!(parse_number("1.2.3"), None);
    assert_eq!(parse_number("1e5"), None);
    assert_eq!(parse_number("340282366920938463463374607431768211455"), Some((false, u128::MAX, 0)));
    assert_eq!(parse_number("340282366920938463463374607431768211456"), None);
}

#[test]
fn integer_ranges() {
    assert_eq!(u8::decode(&JsonValue::Number("255".to_string())), Some(255));
    assert_eq!(u8::decode(&JsonValue::Number("256".to_string())), None);
    assert_eq!(u64::decode(&JsonValue::Number("-1".to_string())), None);
    assert_eq!(u64::decode(&JsonValue::Number("18446744073709551615".to_string())), Some(u64::MAX));
    assert_eq!(u64::decode(&JsonValue::Number("1.0".to_string())), None);
    assert_eq!(u64::decode(&JsonValue::Str("3600".to_string())), None);
}

#[test]
fn country_codes() {
    let ok = CountryCode::decode(&JsonValue::Str("US".to_string())).unwrap();
    assert_eq!(ok.code, "US");
    assert!(CountryCode::decode(&JsonValue::Str("us".to_string())).is_none());
    assert!(CountryCode::decode(&JsonValue::Str("USA".to_string())).is_none());
}

#[test]
fn dates_and_times() {
    assert_eq!(
        Date::decode(&JsonValue::Str("2000-02-29".to_string())),
        Some(Date { year: 2000, month: 2, day: 29 })
    );
    assert!(Date::decode(&JsonValue::Str("2001-02-29".to_string())).is_none());
    let t = parallel_markets_client::DateTime::decode(&JsonValue::Str(
        "1970-01-01T00:00:01.5-01:00".to_string(),
    ))
    .unwrap();
    assert_eq!(t.unix_seconds, 3601);
    assert_eq!(t.nanosecond, 500_000_000);
    assert_eq!(t.offset_seconds, -3600);
    assert!(parallel_markets_client::DateTime::decode(&JsonValue::Str("yesterday".to_string())).is_none());
}

#[test]
fn payload_matching_both_shapes_takes_the_first() {
    let text = INDIVIDUAL_PROFILE.replace(
        r#""profile": {"first_name": "Ada", "last_name": "Lovelace", "email": "ada@example.com"}"#,
        r#""profile": {"first_name": "Ada", "last_name": "Lovelace", "name": "Ada Ltd",
                       "business_type": "Family Office"}"#,
    );
    let r: ProfileResponse = decode_response(&json(&text)).unwrap();
    assert!(matches!(r.profile, Union::Left(_)));
    let owner = json(
        r#"{"id": "T3duZXI6MQ==", "type": "individual", "ownership_percent": 50,
            "profile": {"first_name": "Ada", "last_name": "Lovelace", "name": "Ada Ltd",
                        "business_type": "Family Office"}}"#,
    );
    let o = parallel_markets_client::BeneficialOwnerReference::decode(&owner).unwrap();
    assert_eq!(o.ownership_percent.mantissa, 50);
    assert_eq!(o.ownership_percent.scale, 0);
    match o.profile {
        Union::Left(b) => assert_eq!(b.business_type, BusinessType::FamilyOffice),
        Union::Right(_) => panic!("the business shape is tried first for owners"),
    }
}

#[test]
fn business_shape_in_profile_falls_back_to_second() {
    let text = INDIVIDUAL_PROFILE.replace(
        r#""profile": {"first_name": "Ada", "last_name": "Lovelace", "email": "ada@example.com"}"#,
        r#""profile": {"name": "N", "business_type": "C Corporation", "primary_contact": null}"#,
    );
    let r: ProfileResponse = decode_response(&json(&text)).unwrap();
    match r.profile {
        Union::Right(b) => {
            assert_eq!(b.name, "N");
            assert_eq!(b.business_type, BusinessType::CCorporation);
            assert!(b.primary_contact.is_none());
        }
        Union::Left(_) => panic!("a business shape was read as an individual"),
    }
}

#[test]
fn type_field_does_not_pick_the_shape() {
    let text = INDIVIDUAL_PROFILE
        .replace(r#""type": "individual""#, r#""type": "business""#)
        .replace(
            r#""profile": {"first_name": "Ada", "last_name": "Lovelace", "email": "ada@example.com"}"#,
            r#""profile": {"first_name": "A", "last_name": "B", "email": null, "name": "N",
                           "business_type": "C Corporation"}"#,
        );
    let r: ProfileResponse = decode_response(&json(&text)).unwrap();
    assert_eq!(r.entity_type, EntityType::Business);
    match r.profile {
        Union::Left(p) => {
            assert_eq!(p.first_name, "A");
            assert_eq!(p.last_name, "B");
            assert!(p.email.is_none());
        }
        Union::Right(_) => panic!("the individual shape is tried first"),
    }
}

#[test]
fn empty_accreditation_list_takes_the_first_shape() {
    let text = r#"{"id": "QnVzaW5lc3M6Mg==", "type": "business", "user_id": "VXNlcjoy",
                   "indicated_unaccredited": 1650000000, "accreditations": []}"#;
    let r: AccreditationsResponse = decode_response(&json(text)).unwrap();
    assert_eq!(r.indicated_unaccredited.unwrap().seconds, 1650000000);
    match r.accreditations {
        Union::Left(list) => assert!(list.is_empty()),
        Union::Right(_) => panic!("the individual list is tried first"),
    }
}

#[test]
fn ownership_percent_as_text_and_optional_business_tax_id() {
    let text = BUSINESS_IDENTITY
        .replace(r#""ownership_percent": 25.5"#, r#""ownership_percent": "33.33""#)
        .replace(r#""foreign_tax_id": """#, r#""foreign_tax_id": null"#)
        .replace(r#""incorporation_state": "DE""#, r#""incorporation_state": null"#);
    let r: IdentityResponse = decode_response(&json(&text)).unwrap();
    let d = match r.identity_details {
        Union::Left(d) => d,
        Union::Right(_) => panic!("wrong shape"),
    };
    let p = d.direct_beneficial_owners[0].ownership_percent;
    assert!(!p.negative);
    assert_eq!(p.mantissa, 3333);
    assert_eq!(p.scale, 2);
    assert!(d.foreign_tax_id.is_none());
    assert!(d.incorporation_state.is_none());
    let kept: IdentityResponse = decode_response(&json(BUSINESS_IDENTITY)).unwrap();
    match kept.identity_details {
        Union::Left(d) => assert_eq!(d.foreign_tax_id.as_deref(), Some("")),
        Union::Right(_) => panic!("wrong shape"),
    }
}

#[test]
fn timestamps_outside_the_calendar_are_refused() {
    let last = Timestamp::decode(&JsonValue::Number("253402300799".to_string())).unwrap();
    assert_eq!(last.seconds, 253402300799);
    assert!(Timestamp::decode(&JsonValue::Number("253402300800".to_string())).is_none());
    let first = Timestamp::decode(&JsonValue::Number("-377705116800".to_string())).unwrap();
    assert_eq!(first.seconds, -377705116800);
    assert!(Timestamp::decode(&JsonValue::Number("-377705116801".to_string())).is_none());
}

#[test]
fn dates_only_in_the_dashed_form() {
    assert!(Date::decode(&JsonValue::Str("19900131".to_string())).is_none());
    assert!(Date::decode(&JsonValue::Str("1990-W05-3".to_string())).is_none());
    assert!(Date::decode(&JsonValue::Str("1990-031".to_string())).is_none());
    assert_eq!(
        Date::decode(&JsonValue::Str("1990-01-31".to_string())),
        Some(Date { year: 1990, month: 1, day: 31 })
    );
}
