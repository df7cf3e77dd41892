use std::collections::{BTreeSet, HashSet};

use meilisearch_sdk::json::{get_member, Json, JsonNumber};
use meilisearch_sdk::settings::{
    decode_rule, decode_settings, decode_synonyms, encode_rule, encode_settings, RankingRule, SettingsUpdate,
    UpdateState,
};

fn s(v: &str) -> Json {
    Json::Str(v.to_string())
}

fn strings(v: &[&str]) -> Vec<String> {
    v.iter().map(|x| x.to_string()).collect()
}

fn mixed_update() -> SettingsUpdate {
    SettingsUpdate {
        ranking_rules: UpdateState::Update(vec![
            RankingRule::Typo,
            RankingRule::Words,
            RankingRule::Proximity,
            RankingRule::Attribute,
            RankingRule::WordsPosition,
            RankingRule::Exactness,
            RankingRule::Asc("price".to_string()),
            RankingRule::Dsc("rank".to_string()),
        ]),
        distinct_attribute: UpdateState::Clear,
        identifier: UpdateState::Nothing,
        searchable_attributes: UpdateState::Update(strings(&["title", "overview"])),
        displayed_attributes: UpdateState::Update(strings(&["title", "id"])),
        stop_words: UpdateState::Clear,
        synonyms: UpdateState::Update(vec![
            ("wolverine".to_string(), strings(&["logan", "xmen"])),
            ("logan".to_string(), strings(&["wolverine"])),
        ]),
        accept_new_fields: UpdateState::Update(false),
    }
}

fn rule_name(r: &RankingRule) -> String {
    match r {
        RankingRule::Typo => "Typo".to_string(),
        RankingRule::Words => "Words".to_string(),
        RankingRule::Proximity => "Proximity".to_string(),
        RankingRule::Attribute => "Attribute".to_string(),
        RankingRule::WordsPosition => "WordsPosition".to_string(),
        RankingRule::Exactness => "Exactness".to_string(),
        RankingRule::Asc(a) => format!("Asc({})", a),
        RankingRule::Dsc(a) => format!("Dsc({})", a),
    }
}

#[test]
fn settings_round_trip() {
    let update = mixed_update();
    let decoded = decode_settings(&encode_settings(&update)).expect("the encoding reads back");
    match (&decoded.ranking_rules, &update.ranking_rules) {
        (UpdateState::Update(a), UpdateState::Update(b)) => {
            let a: Vec<String> = a.iter().map(rule_name).collect();
            let b: Vec<String> = b.iter().map(rule_name).collect();
            assert_eq!(a, b);
        },
        _ => panic!("ranking rules lost"),
    }
    assert!(matches!(decoded.distinct_attribute, UpdateState::Clear));
    assert!(matches!(decoded.identifier, UpdateState::Nothing));
    assert!(matches!(decoded.searchable_attributes, UpdateState::Update(ref v) if *v == strings(&["title", "overview"])));
    match decoded.displayed_attributes {
        UpdateState::Update(v) => {
            let got: HashSet<String> = v.into_iter().collect();
            let want: HashSet<String> = strings(&["id", "title"]).into_iter().collect();
            assert_eq!(got, want);
        },
        _ => panic!("displayed attributes lost"),
    }
    assert!(matches!(decoded.stop_words, UpdateState::Clear));
    match decoded.synonyms {
        UpdateState::Update(v) => {
            assert_eq!(v.len(), 2);
            assert_eq!(v[0].0, "wolverine");
            assert_eq!(v[0].1, strings(&["logan", "xmen"]));
            assert_eq!(v[1].0, "logan");
            assert_eq!(v[1].1, strings(&["wolverine"]));
        },
        _ => panic!("synonyms lost"),
    }
    assert!(matches!(decoded.accept_new_fields, UpdateState::Update(false)));
}

#[test]
fn unchanged_settings_are_omitted_and_cleared_are_null() {
    let encoded = encode_settings(&mixed_update());
    let members = match &encoded {
        Json::Object(m) => m,
        _ => panic!("expected an object"),
    };
    assert!(get_member(members, "identifier").is_none());
    assert!(matches!(get_member(members, "distinctAttribute"), Some(Json::Null)));
    assert!(matches!(get_member(members, "stopWords"), Some(Json::Null)));
    assert!(matches!(get_member(members, "acceptNewFields"), Some(Json::Bool(false))));
    assert_eq!(members.len(), 7);
}

#[test]
fn empty_update_is_empty_object() {
    let update = SettingsUpdate {
        ranking_rules: UpdateState::Nothing,
        distinct_attribute: UpdateState::Nothing,
        identifier: UpdateState::Nothing,
        searchable_attributes: UpdateState::Nothing,
        displayed_attributes: UpdateState::Nothing,
        stop_words: UpdateState::Nothing,
        synonyms: UpdateState::Nothing,
        accept_new_fields: UpdateState::Nothing,
    };
    let encoded = encode_settings(&update);
    assert!(matches!(&encoded, Json::Object(m) if m.is_empty()));
    let decoded = decode_settings(&encoded).expect("an empty object is an empty update");
    assert!(matches!(decoded.ranking_rules, UpdateState::Nothing));
    assert!(matches!(decoded.accept_new_fields, UpdateState::Nothing));
}

#[test]
fn stop_words_read_as_a_set() {
    let value = Json::Object(vec![(
        "stopWords".to_string(),
        Json::Array(vec![s("the"), s("a"), s("the")]),
    )]);
    match decode_settings(&value).expect("stop words read").stop_words {
        UpdateState::Update(v) => {
            let got: BTreeSet<String> = v.into_iter().collect();
            let want: BTreeSet<String> = strings(&["a", "the"]).into_iter().collect();
            assert_eq!(got, want);
        },
        _ => panic!("expected stop words"),
    }
}

#[test]
fn wrong_setting_types_are_refused() {
    let bad = |k: &str, v: Json| Json::Object(vec![(k.to_string(), v)]);
    assert!(decode_settings(&bad("acceptNewFields", s("yes"))).is_none());
    assert!(decode_settings(&bad("distinctAttribute", Json::Bool(true))).is_none());
    assert!(decode_settings(&bad("searchableAttributes", Json::Array(vec![s("a"), Json::Null]))).is_none());
    assert!(decode_settings(&bad("rankingRules", Json::Array(vec![s("Typos")]))).is_none());
    assert!(decode_settings(&bad("synonyms", Json::Array(vec![]))).is_none());
    assert!(decode_settings(&Json::Array(vec![])).is_none());
}

#[test]
fn ranking_rules_read_in_both_forms() {
    assert!(matches!(decode_rule(&s("Exactness")), Some(RankingRule::Exactness)));
    let unit = Json::Object(vec![("Proximity".to_string(), Json::Null)]);
    assert!(matches!(decode_rule(&unit), Some(RankingRule::Proximity)));
    let asc = Json::Object(vec![("Asc".to_string(), s("price"))]);
    assert!(matches!(decode_rule(&asc), Some(RankingRule::Asc(ref a)) if a == "price"));
    let dsc = Json::Object(vec![("Dsc".to_string(), s("date"))]);
    assert!(matches!(decode_rule(&dsc), Some(RankingRule::Dsc(ref a)) if a == "date"));
    assert!(decode_rule(&s("Asc")).is_none());
    assert!(decode_rule(&Json::Object(vec![("Asc".to_string(), Json::Null)])).is_none());
    assert!(decode_rule(&Json::Number(JsonNumber::PosInt(1))).is_none());
}

#[test]
fn ranking_rules_are_written_by_name() {
    assert!(matches!(encode_rule(&RankingRule::WordsPosition), Json::Str(ref n) if n == "WordsPosition"));
    match encode_rule(&RankingRule::Dsc("date".to_string())) {
        Json::Object(m) => {
            assert_eq!(m.len(), 1);
            assert_eq!(m[0].0, "Dsc");
            assert!(matches!(m[0].1, Json::Str(ref a) if a == "date"));
        },
        _ => panic!("expected an object"),
    }
}

#[test]
fn synonyms_are_read_in_order() {
    let value = Json::Object(vec![
        ("b".to_string(), Json::Array(vec![s("x")])),
        ("a".to_string(), Json::Array(vec![])),
    ]);
    let got = decode_synonyms(&value).expect("synonyms read");
    assert_eq!(got.len(), 2);
    assert_eq!(got[0].0, "b");
    assert_eq!(got[0].1, strings(&["x"]));
    assert_eq!(got[1].0, "a");
    assert!(got[1].1.is_empty());
}
