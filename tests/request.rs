use italo_api::{
    EnvelopeField, FieldValue, JourneyRequest, LoginRequestBody, LoginResponse, RequestField, SessionGate,
    Station, UtcDateTime, SEARCH_SOURCE_SYSTEM,
};

fn at(secs: i64) -> UtcDateTime {
    UtcDateTime::from_timestamp(secs).unwrap()
}

fn keys(r: &JourneyRequest) -> Vec<RequestField> {
    r.payload_fields().into_iter().map(|(k, _)| k).collect()
}

fn text_of(r: &JourneyRequest, key: RequestField) -> Option<String> {
    r.payload_fields().into_iter().find(|(k, _)| *k == key).and_then(|(_, v)| match v {
        FieldValue::Text(s) => Some(s),
        _ => None,
    })
}

fn serialized(r: &JourneyRequest) -> String {
    let mut m = serde_json::Map::new();
    for (k, v) in r.payload_fields() {
        let value = match v {
            FieldValue::Text(s) => serde_json::Value::String(s),
            FieldValue::Count(n) => serde_json::Value::from(n),
            FieldValue::Flag(b) => serde_json::Value::Bool(b),
        };
        m.insert(k.key().to_string(), value);
    }
    serde_json::Value::Object(m).to_string()
}

#[test]
fn default_request() {
    let r = JourneyRequest::default();
    let f = r.payload_fields();
    assert_eq!(f.len(), 12);
    assert!(matches!(&f[4], (RequestField::AdultNumber, FieldValue::Count(1))));
    assert!(matches!(&f[5], (RequestField::ChildNumber, FieldValue::Count(0))));
    assert!(matches!(&f[10], (RequestField::IsGuest, FieldValue::Flag(true))));
    assert!(matches!(&f[11], (RequestField::RoundTrip, FieldValue::Flag(false))));
    assert_eq!(text_of(&r, RequestField::CurrencyCode).unwrap(), "EUR");
}

#[test]
fn setters_store_codes_and_encoded_window() {
    let mut r = JourneyRequest::default();
    r.set_departure_station(Station::new(
        "NAC".to_string(),
        "napoli-centrale".to_string(),
        "Napoli Centrale".to_string(),
    ))
    .set_arrival_station(Station::new(
        "MC_".to_string(),
        "milano-centrale".to_string(),
        "Milano Centrale".to_string(),
    ))
    .set_interval_start_date_time(at(1700000000))
    .set_interval_end_date_time(at(1700018000))
    .set_adult_number(2)
    .set_override_interval_time_restriction(true);
    assert_eq!(text_of(&r, RequestField::DepartureStation).unwrap(), "NAC");
    assert_eq!(text_of(&r, RequestField::ArrivalStation).unwrap(), "MC_");
    assert_eq!(
        text_of(&r, RequestField::IntervalStartDateTime).unwrap(),
        "/Date(1700000000+0000)/"
    );
    assert_eq!(
        text_of(&r, RequestField::IntervalEndDateTime).unwrap(),
        "/Date(1700018000+0000)/"
    );
    let f = r.payload_fields();
    assert!(matches!(&f[4], (RequestField::AdultNumber, FieldValue::Count(2))));
    assert!(matches!(&f[8], (RequestField::OverrideIntervalTimeRestriction, FieldValue::Flag(true))));
}

#[test]
fn round_trip_false_clears_both_fields() {
    let mut r = JourneyRequest::default();
    r.set_round_trip((true, Some(at(1700000000)), Some(at(1700003600)))).unwrap();
    assert_eq!(keys(&r).len(), 14);
    r.set_round_trip((false, Some(at(5)), None)).unwrap();
    let k = keys(&r);
    assert_eq!(k.len(), 12);
    assert!(!k.contains(&RequestField::RoundTripIntervalStartDateTime));
    assert!(!k.contains(&RequestField::RoundTripIntervalEndDateTime));
}

#[test]
fn round_trip_true_stores_both_encoded() {
    let mut r = JourneyRequest::default();
    r.set_round_trip((true, Some(at(1700000000)), Some(at(1700003600)))).unwrap();
    assert_eq!(
        text_of(&r, RequestField::RoundTripIntervalStartDateTime).unwrap(),
        "/Date(1700000000+0000)/"
    );
    assert_eq!(
        text_of(&r, RequestField::RoundTripIntervalEndDateTime).unwrap(),
        "/Date(1700003600+0000)/"
    );
    assert!(matches!(&r.payload_fields()[11], (RequestField::RoundTrip, FieldValue::Flag(true))));
}

#[test]
fn round_trip_true_with_missing_date_fails() {
    let mut r = JourneyRequest::default();
    let e = r.set_round_trip((true, None, Some(at(1700003600)))).unwrap_err();
    assert_eq!(e.start, None);
    assert_eq!(e.end, Some(at(1700003600)));
    let e2 = r.set_round_trip((true, Some(at(1)), None)).unwrap_err();
    assert_eq!(e2.start, Some(at(1)));
    assert_eq!(e2.end, None);
    assert_eq!(keys(&r).len(), 12);
}

#[test]
fn serialized_payload_omits_unset_round_trip_keys() {
    let mut r = JourneyRequest::default();
    let one_way = serialized(&r);
    assert!(!one_way.contains("RoundTripIntervalStartDateTime"));
    assert!(!one_way.contains("RoundTripIntervalEndDateTime"));
    assert!(!one_way.contains("null"));
    assert!(one_way.contains("\"RoundTrip\":false"));
    r.set_round_trip((true, Some(at(10)), Some(at(20)))).unwrap();
    let two_way = serialized(&r);
    assert!(two_way.contains("\"RoundTripIntervalStartDateTime\":\"/Date(10+0000)/\""));
    assert!(two_way.contains("\"RoundTripIntervalEndDateTime\":\"/Date(20+0000)/\""));
}

#[test]
fn session_gate_holds_token_once_given() {
    let mut gate = SessionGate::new();
    let req = JourneyRequest::default();
    assert!(!gate.is_initialized());
    assert!(gate.search_request(&req).is_none());
    gate.init(LoginResponse::new("token-1".to_string()));
    assert!(gate.is_initialized());
    let env = gate.search_request(&req).unwrap();
    assert_eq!(env.signature(), "token-1");
    assert_eq!(env.source_system(), SEARCH_SOURCE_SYSTEM);
    assert_eq!(SEARCH_SOURCE_SYSTEM, 2);
}

#[test]
fn login_body_is_the_anonymous_one() {
    let b = LoginRequestBody::default();
    assert_eq!(b.login.domain, "WWW");
    assert_eq!(b.login.username, "WWW_Anonymous");
    assert_eq!(b.source_system, 1);
}

#[test]
fn field_and_envelope_keys() {
    assert_eq!(RequestField::DepartureStation.key(), "DepartureStation");
    assert_eq!(RequestField::RoundTripIntervalStartDateTime.key(), "RoundTripIntervalStartDateTime");
    assert_eq!(RequestField::RoundTripIntervalEndDateTime.key(), "RoundTripIntervalEndDateTime");
    assert_eq!(RequestField::OverrideIntervalTimeRestriction.key(), "OverrideIntervalTimeRestriction");
    assert_eq!(EnvelopeField::Signature.key(), "Signature");
    assert_eq!(EnvelopeField::SourceSystem.key(), "SourceSystem");
    assert_eq!(EnvelopeField::GetAvailableTrains.key(), "GetAvailableTrains");
}

#[test]
fn clearing_round_trip_removes_keys_from_serialized_form() {
    let mut r = JourneyRequest::default();
    r.set_round_trip((true, Some(at(10)), Some(at(20)))).unwrap();
    r.set_round_trip((false, Some(at(10)), Some(at(20)))).unwrap();
    let text = serialized(&r);
    assert!(!text.contains("RoundTripIntervalStartDateTime"));
    assert!(!text.contains("RoundTripIntervalEndDateTime"));
}
