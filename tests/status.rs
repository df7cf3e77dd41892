use meilisearch_sdk::json::{Json, JsonNumber};
use meilisearch_sdk::settings::{RankingRule, SettingsUpdate, UpdateState};
use meilisearch_sdk::status::{
    decode_enqueued, decode_processed, decode_status, decode_update_type, Error, Status, UpdateType,
};

fn s(v: &str) -> Json {
    Json::Str(v.to_string())
}

fn num(n: u64) -> Json {
    Json::Number(JsonNumber::PosInt(n))
}

fn obj(members: Vec<(&str, Json)>) -> Json {
    Json::Object(members.into_iter().map(|(k, v)| (k.to_string(), v)).collect())
}

fn deletion_type() -> Json {
    obj(vec![("name", s("DocumentsDeletion")), ("number", num(3))])
}

fn enqueued_payload() -> Vec<(&'static str, Json)> {
    vec![
        ("updateId", num(42)),
        ("type", deletion_type()),
        ("enqueuedAt", s("2021-01-01T00:00:00Z")),
    ]
}

fn processed_payload() -> Vec<(&'static str, Json)> {
    let mut m = enqueued_payload();
    m.push(("duration", Json::Number(JsonNumber::Float(1.5f64.to_bits()))));
    m.push(("processedAt", s("2021-01-01T00:00:02Z")));
    m
}

#[test]
fn enqueued_deletion_example() {
    match decode_status(&obj(enqueued_payload())) {
        Ok(Status::Enqueued(e)) => {
            assert_eq!(e.update_id, 42);
            assert!(matches!(e.update_type, UpdateType::DocumentsDeletion { number: 3 }));
            assert_eq!(e.enqueued_at, "2021-01-01T00:00:00Z");
        },
        _ => panic!("expected an enqueued status"),
    }
}

#[test]
fn processed_deletion_example() {
    match decode_status(&obj(processed_payload())) {
        Ok(Status::Processed(p)) => {
            assert_eq!(p.update_id, 42);
            assert!(matches!(p.update_type, UpdateType::DocumentsDeletion { number: 3 }));
            assert_eq!(p.duration, JsonNumber::Float(1.5f64.to_bits()));
            assert_eq!(f64::from_bits(match p.duration {
                JsonNumber::Float(b) => b,
                _ => 0,
            }), 1.5);
            assert_eq!(p.enqueued_at, "2021-01-01T00:00:00Z");
            assert_eq!(p.processed_at, "2021-01-01T00:00:02Z");
            assert!(p.error.is_none());
        },
        _ => panic!("expected a processed status"),
    }
}

#[test]
fn processed_keeps_error_message() {
    let mut m = processed_payload();
    m.push(("error", s("document not found")));
    match decode_status(&obj(m)) {
        Ok(Status::Processed(p)) => assert_eq!(p.error, Some("document not found".to_string())),
        _ => panic!("expected a processed status"),
    }
}

#[test]
fn null_error_is_no_error() {
    let mut m = processed_payload();
    m.push(("error", Json::Null));
    match decode_status(&obj(m)) {
        Ok(Status::Processed(p)) => assert!(p.error.is_none()),
        _ => panic!("expected a processed status"),
    }
}

#[test]
fn processed_with_integer_duration() {
    let mut m = enqueued_payload();
    m.push(("duration", num(2)));
    m.push(("processedAt", s("later")));
    match decode_status(&obj(m)) {
        Ok(Status::Processed(p)) => assert_eq!(p.duration, JsonNumber::PosInt(2)),
        _ => panic!("expected a processed status"),
    }
}

#[test]
fn duration_without_processed_time_is_enqueued() {
    let mut m = enqueued_payload();
    m.push(("duration", num(2)));
    assert!(matches!(decode_status(&obj(m)), Ok(Status::Enqueued(_))));
}

#[test]
fn bad_error_member_falls_back_to_enqueued() {
    let bad = || {
        let mut m = processed_payload();
        m.push(("error", num(7)));
        obj(m)
    };
    assert!(decode_processed(&bad()).is_none());
    assert!(matches!(decode_status(&bad()), Ok(Status::Enqueued(_))));
}

#[test]
fn missing_update_id_is_invalid_response() {
    let mut m = processed_payload();
    m.remove(0);
    assert_eq!(decode_status(&obj(m)).err(), Some(Error::InvalidServerResponse));
    let mut m = enqueued_payload();
    m.remove(0);
    assert_eq!(decode_status(&obj(m)).err(), Some(Error::InvalidServerResponse));
}

#[test]
fn negative_update_id_is_invalid_response() {
    let mut m = enqueued_payload();
    m[0] = ("updateId", Json::Number(JsonNumber::NegInt(-1)));
    assert_eq!(decode_status(&obj(m)).err(), Some(Error::InvalidServerResponse));
}

#[test]
fn non_object_is_invalid_response() {
    assert_eq!(decode_status(&Json::Null).err(), Some(Error::InvalidServerResponse));
    assert_eq!(decode_status(&s("x")).err(), Some(Error::InvalidServerResponse));
    assert_eq!(decode_status(&obj(vec![])).err(), Some(Error::InvalidServerResponse));
}

#[test]
fn unknown_update_kind_is_invalid_response() {
    let mut m = enqueued_payload();
    m[1] = ("type", obj(vec![("name", s("Reindex"))]));
    assert_eq!(decode_status(&obj(m)).err(), Some(Error::InvalidServerResponse));
}

#[test]
fn update_kinds_are_read() {
    assert!(matches!(decode_update_type(&obj(vec![("name", s("ClearAll"))])), Some(UpdateType::ClearAll)));
    assert!(matches!(decode_update_type(&obj(vec![("name", s("Customs"))])), Some(UpdateType::Customs)));
    assert!(matches!(
        decode_update_type(&obj(vec![("name", s("DocumentsAddition")), ("number", num(10))])),
        Some(UpdateType::DocumentsAddition { number: 10 })
    ));
    assert!(matches!(
        decode_update_type(&obj(vec![("number", num(4)), ("name", s("DocumentsPartial"))])),
        Some(UpdateType::DocumentsPartial { number: 4 })
    ));
    assert!(decode_update_type(&obj(vec![("name", s("DocumentsAddition"))])).is_none());
    assert!(decode_update_type(&obj(vec![("name", num(1))])).is_none());
}

#[test]
fn settings_update_kind_is_read() {
    let ty = obj(vec![
        ("name", s("Settings")),
        ("settings", obj(vec![("rankingRules", Json::Array(vec![s("Typo"), s("Words")])), ("stopWords", Json::Null)])),
    ]);
    match decode_update_type(&ty) {
        Some(UpdateType::Settings { settings }) => {
            match settings.ranking_rules {
                UpdateState::Update(r) => {
                    assert_eq!(r.len(), 2);
                    assert!(matches!(r[0], RankingRule::Typo));
                    assert!(matches!(r[1], RankingRule::Words));
                },
                _ => panic!("expected ranking rules"),
            }
            assert!(matches!(settings.stop_words, UpdateState::Clear));
            assert!(matches!(settings.synonyms, UpdateState::Nothing));
        },
        _ => panic!("expected a settings update"),
    }
    let missing = obj(vec![("name", s("Settings"))]);
    assert!(decode_update_type(&missing).is_none());
}

#[test]
fn first_member_of_a_key_counts() {
    let m = vec![
        ("updateId", num(1)),
        ("updateId", num(2)),
        ("type", obj(vec![("name", s("ClearAll"))])),
        ("enqueuedAt", s("t")),
    ];
    match decode_enqueued(&obj(m)) {
        Some(e) => assert_eq!(e.update_id, 1),
        None => panic!("expected an enqueued status"),
    }
}

#[test]
fn settings_inside_status_are_kept() {
    let update = SettingsUpdate {
        ranking_rules: UpdateState::Nothing,
        distinct_attribute: UpdateState::Update("id".to_string()),
        identifier: UpdateState::Nothing,
        searchable_attributes: UpdateState::Nothing,
        displayed_attributes: UpdateState::Nothing,
        stop_words: UpdateState::Nothing,
        synonyms: UpdateState::Nothing,
        accept_new_fields: UpdateState::Update(true),
    };
    let encoded = meilisearch_sdk::settings::encode_settings(&update);
    let m = vec![
        ("updateId", num(5)),
        ("type", obj(vec![("name", s("Settings")), ("settings", encoded)])),
        ("enqueuedAt", s("t")),
    ];
    match decode_status(&obj(m)) {
        Ok(Status::Enqueued(e)) => match e.update_type {
            UpdateType::Settings { settings } => {
                assert!(matches!(settings.distinct_attribute, UpdateState::Update(ref a) if a == "id"));
                assert!(matches!(settings.accept_new_fields, UpdateState::Update(true)));
            },
            _ => panic!("expected a settings update"),
        },
        _ => panic!("expected an enqueued status"),
    }
}
