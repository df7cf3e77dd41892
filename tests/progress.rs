use meilisearch_sdk::json::{as_u64, as_usize, Json, JsonNumber};
use meilisearch_sdk::progress::{Progress, ProgressJson};

#[test]
fn accepted_update_is_tracked() {
    let answer = Json::Object(vec![("updateId".to_string(), Json::Number(JsonNumber::PosInt(17)))]);
    let p = ProgressJson::decode(&answer).expect("an update id");
    assert_eq!(p.update_id, 17);
    let progress = p.into_progress("movies".to_string());
    assert_eq!(progress.id, 17);
    assert_eq!(progress.index_uid, "movies");
}

#[test]
fn answer_without_update_id_is_refused() {
    assert!(ProgressJson::decode(&Json::Object(vec![])).is_none());
    let text = Json::Object(vec![("updateId".to_string(), Json::Str("17".to_string()))]);
    assert!(ProgressJson::decode(&text).is_none());
}

#[test]
fn status_url_names_index_and_update() {
    let progress = Progress { id: 1205, index_uid: "movies".to_string() };
    assert_eq!(progress.status_url("http://localhost:7700"), "http://localhost:7700/indexes/movies/updates/1205");
    let first = Progress { id: 0, index_uid: "a".to_string() };
    assert_eq!(first.status_url(""), "/indexes/a/updates/0");
    let last = Progress { id: usize::MAX, index_uid: "b".to_string() };
    assert_eq!(last.status_url("h"), format!("h/indexes/b/updates/{}", usize::MAX));
}

#[test]
fn integers_are_read_exactly() {
    assert_eq!(as_u64(&Json::Number(JsonNumber::PosInt(u64::MAX))), Some(u64::MAX));
    assert_eq!(as_u64(&Json::Number(JsonNumber::NegInt(5))), Some(5));
    assert_eq!(as_u64(&Json::Number(JsonNumber::NegInt(-5))), None);
    assert_eq!(as_u64(&Json::Number(JsonNumber::Float(2.0f64.to_bits()))), None);
    assert_eq!(as_usize(&Json::Bool(true)), None);
}
