use vstd::prelude::*;

use crate::json::{
    as_string, as_string_list, get_member, lemma_member_push, member, string_list, string_list_of, str_of, text,
    views_of, Json,
};

verus! {

/// A rule of the ranking order.
#[derive(Debug, Clone)]
pub enum RankingRule {
    Typo,
    Words,
    Proximity,
    Attribute,
    WordsPosition,
    Exactness,
    Asc(String),
    Dsc(String),
}

/// What a `RankingRule` stands for.
pub enum RuleView {
    Typo,
    Words,
    Proximity,
    Attribute,
    WordsPosition,
    Exactness,
    Asc(Seq<char>),
    Dsc(Seq<char>),
}

impl View for RankingRule {
    type V = RuleView;

    open spec fn view(&self) -> RuleView {
        match self {
            RankingRule::Typo => RuleView::Typo,
            RankingRule::Words => RuleView::Words,
            RankingRule::Proximity => RuleView::Proximity,
            RankingRule::Attribute => RuleView::Attribute,
            RankingRule::WordsPosition => RuleView::WordsPosition,
            RankingRule::Exactness => RuleView::Exactness,
            RankingRule::Asc(s) => RuleView::Asc(s@),
            RankingRule::Dsc(s) => RuleView::Dsc(s@),
        }
    }
}

/// What a settings update does to one setting: sets it, clears it, or leaves
/// it as it is.
#[derive(Debug, Clone)]
pub enum UpdateState<T> {
    Update(T),
    Clear,
    Nothing,
}

/// The state with its value passed through `f`.
pub open spec fn state_view<T, V>(s: UpdateState<T>, f: spec_fn(T) -> V) -> UpdateState<V> {
    match s {
        UpdateState::Update(x) => UpdateState::Update(f(x)),
        UpdateState::Clear => UpdateState::Clear,
        UpdateState::Nothing => UpdateState::Nothing,
    }
}

/// A partial update of an index's settings.
///
/// The displayed attributes and the stop words are sets, and the synonyms a map
/// from a word to its synonyms: a vector holds their entries, and where a word
/// occurs twice among the synonyms its first entry counts.
#[derive(Debug, Clone)]
pub struct SettingsUpdate {
    pub ranking_rules: UpdateState<Vec<RankingRule>>,
    pub distinct_attribute: UpdateState<String>,
    pub identifier: UpdateState<String>,
    pub searchable_attributes: UpdateState<Vec<String>>,
    pub displayed_attributes: UpdateState<Vec<String>>,
    pub stop_words: UpdateState<Vec<String>>,
    pub synonyms: UpdateState<Vec<(String, Vec<String>)>>,
    pub accept_new_fields: UpdateState<bool>,
}

/// What a `SettingsUpdate` stands for.
pub struct SettingsView {
    pub ranking_rules: UpdateState<Seq<RuleView>>,
    pub distinct_attribute: UpdateState<Seq<char>>,
    pub identifier: UpdateState<Seq<char>>,
    pub searchable_attributes: UpdateState<Seq<Seq<char>>>,
    pub displayed_attributes: UpdateState<Set<Seq<char>>>,
    pub stop_words: UpdateState<Set<Seq<char>>>,
    pub synonyms: UpdateState<Map<Seq<char>, Seq<Seq<char>>>>,
    pub accept_new_fields: UpdateState<bool>,
}

/// The map given by a list of entries, where the first entry of a key counts.
pub open spec fn entries_map(s: Seq<(Seq<char>, Seq<Seq<char>>)>) -> Map<Seq<char>, Seq<Seq<char>>>
    decreases s.len(),
{
    if s.len() == 0 {
        Map::empty()
    } else {
        entries_map(s.drop_first()).insert(s[0].0, s[0].1)
    }
}

/// The entries of a synonym list, as plain values.
pub open spec fn synonym_entries(v: Seq<(String, Vec<String>)>) -> Seq<(Seq<char>, Seq<Seq<char>>)> {
    v.map_values(|e: (String, Vec<String>)| (e.0@, views_of(e.1@)))
}

/// The views of a vector of ranking rules.
pub open spec fn rules_view(v: Vec<RankingRule>) -> Seq<RuleView> {
    v@.map_values(|r: RankingRule| r@)
}

impl View for SettingsUpdate {
    type V = SettingsView;

    open spec fn view(&self) -> SettingsView {
        SettingsView {
            ranking_rules: state_view(self.ranking_rules, |v: Vec<RankingRule>| rules_view(v)),
            distinct_attribute: state_view(self.distinct_attribute, |s: String| s@),
            identifier: state_view(self.identifier, |s: String| s@),
            searchable_attributes: state_view(self.searchable_attributes, |v: Vec<String>| views_of(v@)),
            displayed_attributes: state_view(
                self.displayed_attributes,
                |v: Vec<String>| views_of(v@).to_set(),
            ),
            stop_words: state_view(self.stop_words, |v: Vec<String>| views_of(v@).to_set()),
            synonyms: state_view(
                self.synonyms,
                |v: Vec<(String, Vec<String>)>| entries_map(synonym_entries(v@)),
            ),
            accept_new_fields: self.accept_new_fields,
        }
    }
}

// Reading a settings update.

/// The rule without a parameter that `name` names.
pub open spec fn unit_rule(name: Seq<char>) -> Option<RuleView> {
    if name == "Typo"@ {
        Some(RuleView::Typo)
    } else if name == "Words"@ {
        Some(RuleView::Words)
    } else if name == "Proximity"@ {
        Some(RuleView::Proximity)
    } else if name == "Attribute"@ {
        Some(RuleView::Attribute)
    } else if name == "WordsPosition"@ {
        Some(RuleView::WordsPosition)
    } else if name == "Exactness"@ {
        Some(RuleView::Exactness)
    } else {
        None
    }
}

/// A ranking rule read from a value: a rule without a parameter is its name, or
/// an object whose one member has that name and a null value; an ascending or
/// descending rule is an object whose one member is `Asc` or `Dsc` with the
/// attribute's name.
pub open spec fn rule_of(value: Json) -> Option<RuleView> {
    match value {
        Json::Str(s) => unit_rule(s@),
        Json::Object(m) => if m@.len() == 1 {
            match m@[0].1 {
                Json::Null => unit_rule(m@[0].0@),
                Json::Str(s) => if m@[0].0@ == "Asc"@ {
                    Some(RuleView::Asc(s@))
                } else if m@[0].0@ == "Dsc"@ {
                    Some(RuleView::Dsc(s@))
                } else {
                    None
                },
                _ => None,
            }
        } else {
            None
        },
        _ => None,
    }
}

/// A value read as an array of ranking rules.
pub open spec fn rule_list_of(value: Json) -> Option<Seq<RuleView>> {
    match value {
        Json::Array(items) => if forall|i: int| 0 <= i < items@.len() ==> (#[trigger] rule_of(items@[i])) is Some {
            Some(Seq::new(items@.len(), |i: int| rule_of(items@[i])->0))
        } else {
            None
        },
        _ => None,
    }
}

/// A value read as a set of strings: an array of strings.
pub open spec fn string_set_of(value: Json) -> Option<Set<Seq<char>>> {
    match string_list_of(value) {
        Some(s) => Some(s.to_set()),
        None => None,
    }
}

/// A value read as a synonym map: an object whose members are arrays of strings.
pub open spec fn synonyms_of(value: Json) -> Option<Map<Seq<char>, Seq<Seq<char>>>> {
    match value {
        Json::Object(m) => if forall|i: int| 0 <= i < m@.len() ==> (#[trigger] string_list_of(m@[i].1)) is Some {
            Some(entries_map(Seq::new(m@.len(), |i: int| (m@[i].0@, string_list_of(m@[i].1)->0))))
        } else {
            None
        },
        _ => None,
    }
}

/// A value read as a boolean.
pub open spec fn bool_of(value: Json) -> Option<bool> {
    match value {
        Json::Bool(b) => Some(b),
        _ => None,
    }
}

/// One setting read from its member: no member leaves the setting as it is, a
/// null clears it, and any other value sets it, provided it reads as `read`
/// says.
pub open spec fn state_of<V>(slot: Option<Json>, read: spec_fn(Json) -> Option<V>) -> Option<UpdateState<V>> {
    match slot {
        None => Some(UpdateState::Nothing),
        Some(Json::Null) => Some(UpdateState::Clear),
        Some(v) => match read(v) {
            Some(x) => Some(UpdateState::Update(x)),
            None => None,
        },
    }
}

/// A settings update read from a value: an object with a member for each
/// setting that the update touches.
pub open spec fn settings_of(value: Json) -> Option<SettingsView> {
    match value {
        Json::Object(m) => {
            let ranking_rules = state_of(member(m@, "rankingRules"@), |j: Json| rule_list_of(j));
            let distinct_attribute = state_of(member(m@, "distinctAttribute"@), |j: Json| str_of(j));
            let identifier = state_of(member(m@, "identifier"@), |j: Json| str_of(j));
            let searchable_attributes = state_of(
                member(m@, "searchableAttributes"@),
                |j: Json| string_list_of(j),
            );
            let displayed_attributes = state_of(
                member(m@, "displayedAttributes"@),
                |j: Json| string_set_of(j),
            );
            let stop_words = state_of(member(m@, "stopWords"@), |j: Json| string_set_of(j));
            let synonyms = state_of(member(m@, "synonyms"@), |j: Json| synonyms_of(j));
            let accept_new_fields = state_of(member(m@, "acceptNewFields"@), |j: Json| bool_of(j));
            if ranking_rules is Some && distinct_attribute is Some && identifier is Some
                && searchable_attributes is Some && displayed_attributes is Some && stop_words is Some
                && synonyms is Some && accept_new_fields is Some {
                Some(
                    SettingsView {
                        ranking_rules: ranking_rules->0,
                        distinct_attribute: distinct_attribute->0,
                        identifier: identifier->0,
                        searchable_attributes: searchable_attributes->0,
                        displayed_attributes: displayed_attributes->0,
                        stop_words: stop_words->0,
                        synonyms: synonyms->0,
                        accept_new_fields: accept_new_fields->0,
                    },
                )
            } else {
                None
            }
        },
        _ => None,
    }
}

fn unit_rule_named(name: &String) -> (r: Option<RankingRule>)
    ensures
        match r {
            Some(x) => unit_rule(name@) == Some(x@),
            None => unit_rule(name@) is None,
        },
{
    if *name == text("Typo") {
        Some(RankingRule::Typo)
    } else if *name == text("Words") {
        Some(RankingRule::Words)
    } else if *name == text("Proximity") {
        Some(RankingRule::Proximity)
    } else if *name == text("Attribute") {
        Some(RankingRule::Attribute)
    } else if *name == text("WordsPosition") {
        Some(RankingRule::WordsPosition)
    } else if *name == text("Exactness") {
        Some(RankingRule::Exactness)
    } else {
        None
    }
}

/// Reads a ranking rule.
pub fn decode_rule(value: &Json) -> (r: Option<RankingRule>)
    ensures
        match r {
            Some(x) => rule_of(*value) == Some(x@),
            None => rule_of(*value) is None,
        },
{
    match value {
        Json::Str(s) => unit_rule_named(s),
        Json::Object(m) => {
            if m.len() != 1 {
                return None;
            }
            let name = &m[0].0;
            match &m[0].1 {
                Json::Null => unit_rule_named(name),
                Json::Str(s) => {
                    if *name == text("Asc") {
                        Some(RankingRule::Asc(s.clone()))
                    } else if *name == text("Dsc") {
                        Some(RankingRule::Dsc(s.clone()))
                    } else {
                        None
                    }
                },
                _ => None,
            }
        },
        _ => None,
    }
}

/// Reads an array of ranking rules.
pub fn decode_rules(value: &Json) -> (r: Option<Vec<RankingRule>>)
    ensures
        match r {
            Some(v) => rule_list_of(*value) == Some(rules_view(v)),
            None => rule_list_of(*value) is None,
        },
{
    match value {
        Json::Array(items) => decode_rule_items(items),
        _ => None,
    }
}

fn decode_rule_items(items: &Vec<Json>) -> (r: Option<Vec<RankingRule>>)
    ensures
        match r {
            Some(v) => rule_list_of(Json::Array(*items)) == Some(rules_view(v)),
            None => rule_list_of(Json::Array(*items)) is None,
        },
{
    let mut out: Vec<RankingRule> = Vec::new();
    let mut i: usize = 0;
    while i < items.len()
        invariant
            i <= items.len(),
            out@.len() == i,
            forall|k: int| 0 <= k < i ==> (#[trigger] rule_of(items@[k])) == Some(out@[k]@),
        decreases items.len() - i,
    {
        match decode_rule(&items[i]) {
            Some(x) => out.push(x),
            None => {
                assert(rule_of(items@[i as int]) is None);
                return None;
            },
        }
        i += 1;
    }
    assert(forall|k: int| 0 <= k < items@.len() ==> (#[trigger] rule_of(items@[k])) is Some);
    assert(rules_view(out) =~= Seq::new(items@.len(), |k: int| rule_of(items@[k])->0));
    Some(out)
}

/// Reads a synonym map.
pub fn decode_synonyms(value: &Json) -> (r: Option<Vec<(String, Vec<String>)>>)
    ensures
        match r {
            Some(v) => synonyms_of(*value) == Some(entries_map(synonym_entries(v@))),
            None => synonyms_of(*value) is None,
        },
{
    match value {
        Json::Object(m) => decode_synonym_members(m),
        _ => None,
    }
}

fn decode_synonym_members(m: &Vec<(String, Json)>) -> (r: Option<Vec<(String, Vec<String>)>>)
    ensures
        match r {
            Some(v) => synonyms_of(Json::Object(*m)) == Some(entries_map(synonym_entries(v@))),
            None => synonyms_of(Json::Object(*m)) is None,
        },
{
    let mut out: Vec<(String, Vec<String>)> = Vec::new();
    let mut i: usize = 0;
    while i < m.len()
        invariant
            i <= m.len(),
            out@.len() == i,
            forall|k: int|
                0 <= k < i ==> (#[trigger] string_list_of(m@[k].1)) == Some(views_of(out@[k].1@))
                    && out@[k].0@ == m@[k].0@,
        decreases m.len() - i,
    {
        match as_string_list(&m[i].1) {
            Some(words) => out.push((m[i].0.clone(), words)),
            None => {
                assert(string_list_of(m@[i as int].1) is None);
                return None;
            },
        }
        i += 1;
    }
    assert(forall|k: int| 0 <= k < m@.len() ==> (#[trigger] string_list_of(m@[k].1)) is Some);
    assert(synonym_entries(out@) =~= Seq::new(m@.len(), |k: int| (m@[k].0@, string_list_of(m@[k].1)->0)));
    Some(out)
}

/// Reads a settings update.
pub fn decode_settings(value: &Json) -> (r: Option<SettingsUpdate>)
    ensures
        match r {
            Some(s) => settings_of(*value) == Some(s@),
            None => settings_of(*value) is None,
        },
{
    let m = match value {
        Json::Object(m) => m,
        _ => return None,
    };
    assert(*value == Json::Object(*m));
    let ranking_rules = match get_member(m, "rankingRules") {
        None => UpdateState::Nothing,
        Some(Json::Null) => UpdateState::Clear,
        Some(j) => match decode_rules(j) {
            Some(v) => UpdateState::Update(v),
            None => return None,
        },
    };
    let distinct_attribute = match get_member(m, "distinctAttribute") {
        None => UpdateState::Nothing,
        Some(Json::Null) => UpdateState::Clear,
        Some(j) => match as_string(j) {
            Some(v) => UpdateState::Update(v),
            None => return None,
        },
    };
    let identifier = match get_member(m, "identifier") {
        None => UpdateState::Nothing,
        Some(Json::Null) => UpdateState::Clear,
        Some(j) => match as_string(j) {
            Some(v) => UpdateState::Update(v),
            None => return None,
        },
    };
    let searchable_attributes = match get_member(m, "searchableAttributes") {
        None => UpdateState::Nothing,
        Some(Json::Null) => UpdateState::Clear,
        Some(j) => match as_string_list(j) {
            Some(v) => UpdateState::Update(v),
            None => return None,
        },
    };
    let displayed_attributes = match get_member(m, "displayedAttributes") {
        None => UpdateState::Nothing,
        Some(Json::Null) => UpdateState::Clear,
        Some(j) => match as_string_list(j) {
            Some(v) => UpdateState::Update(v),
            None => return None,
        },
    };
    let stop_words = match get_member(m, "stopWords") {
        None => UpdateState::Nothing,
        Some(Json::Null) => UpdateState::Clear,
        Some(j) => match as_string_list(j) {
            Some(v) => UpdateState::Update(v),
            None => return None,
        },
    };
    let synonyms = match get_member(m, "synonyms") {
        None => UpdateState::Nothing,
        Some(Json::Null) => UpdateState::Clear,
        Some(j) => match decode_synonyms(j) {
            Some(v) => UpdateState::Update(v),
            None => return None,
        },
    };
    let accept_new_fields = match get_member(m, "acceptNewFields") {
        None => UpdateState::Nothing,
        Some(Json::Null) => UpdateState::Clear,
        Some(Json::Bool(b)) => UpdateState::Update(*b),
        Some(_) => return None,
    };
    let r = SettingsUpdate {
        ranking_rules,
        distinct_attribute,
        identifier,
        searchable_attributes,
        displayed_attributes,
        stop_words,
        synonyms,
        accept_new_fields,
    };
    Some(r)
}

// Writing a settings update.

/// How a ranking rule is written: a rule without a parameter as its name, an
/// ascending or descending rule as an object with the one member `Asc` or `Dsc`
/// whose value is the attribute's name.
pub open spec fn rule_json(value: Json, rule: RuleView) -> bool {
    match rule {
        RuleView::Typo => str_of(value) == Some("Typo"@),
        RuleView::Words => str_of(value) == Some("Words"@),
        RuleView::Proximity => str_of(value) == Some("Proximity"@),
        RuleView::Attribute => str_of(value) == Some("Attribute"@),
        RuleView::WordsPosition => str_of(value) == Some("WordsPosition"@),
        RuleView::Exactness => str_of(value) == Some("Exactness"@),
        RuleView::Asc(a) => value is Object && value->Object_0@.len() == 1
            && value->Object_0@[0].0@ == "Asc"@ && str_of(value->Object_0@[0].1) == Some(a),
        RuleView::Dsc(a) => value is Object && value->Object_0@.len() == 1
            && value->Object_0@[0].0@ == "Dsc"@ && str_of(value->Object_0@[0].1) == Some(a),
    }
}

/// How a list of ranking rules is written: an array of the rules in order.
pub open spec fn rule_list_json(value: Json, rules: Seq<RuleView>) -> bool {
    value is Array && value->Array_0@.len() == rules.len()
        && forall|i: int| 0 <= i < rules.len() ==> #[trigger] rule_json(value->Array_0@[i], rules[i])
}

/// How one setting is written: no member when it is left as it is, a null when
/// it is cleared, and a value of the given shape when it is set.
pub open spec fn slot_json<V>(slot: Option<Json>, state: UpdateState<V>, shape: spec_fn(Json, V) -> bool) -> bool {
    match state {
        UpdateState::Nothing => slot is None,
        UpdateState::Clear => slot == Some(Json::Null),
        UpdateState::Update(x) => slot is Some && shape(slot->0, x),
    }
}

/// How a settings update is written: an object with one member for each
/// setting that the update touches.
pub open spec fn settings_json(value: Json, v: SettingsView) -> bool {
    match value {
        Json::Object(m) => {
            &&& slot_json(member(m@, "rankingRules"@), v.ranking_rules, |j: Json, x: Seq<RuleView>| rule_list_json(j, x))
            &&& slot_json(member(m@, "distinctAttribute"@), v.distinct_attribute, |j: Json, x: Seq<char>| str_of(j) == Some(x))
            &&& slot_json(member(m@, "identifier"@), v.identifier, |j: Json, x: Seq<char>| str_of(j) == Some(x))
            &&& slot_json(
                member(m@, "searchableAttributes"@),
                v.searchable_attributes,
                |j: Json, x: Seq<Seq<char>>| string_list_of(j) == Some(x),
            )
            &&& slot_json(
                member(m@, "displayedAttributes"@),
                v.displayed_attributes,
                |j: Json, x: Set<Seq<char>>| string_set_of(j) == Some(x),
            )
            &&& slot_json(
                member(m@, "stopWords"@),
                v.stop_words,
                |j: Json, x: Set<Seq<char>>| string_set_of(j) == Some(x),
            )
            &&& slot_json(
                member(m@, "synonyms"@),
                v.synonyms,
                |j: Json, x: Map<Seq<char>, Seq<Seq<char>>>| synonyms_of(j) == Some(x),
            )
            &&& slot_json(member(m@, "acceptNewFields"@), v.accept_new_fields, |j: Json, x: bool| j == Json::Bool(x))
        },
        _ => false,
    }
}

proof fn lemma_rule_round_trip(value: Json, rule: RuleView)
    requires
        rule_json(value, rule),
    ensures
        rule_of(value) == Some(rule),
{
    reveal_strlit("Typo");
    reveal_strlit("Words");
    reveal_strlit("Proximity");
    reveal_strlit("Attribute");
    reveal_strlit("WordsPosition");
    reveal_strlit("Exactness");
    reveal_strlit("Asc");
    reveal_strlit("Dsc");
    match rule {
        RuleView::Asc(a) => {
            assert("Asc"@[0] != "Dsc"@[0]);
        },
        RuleView::Dsc(a) => {
            assert("Asc"@[0] != "Dsc"@[0]);
        },
        RuleView::Typo => {},
        RuleView::Words => {
            assert("Words"@.len() != "Typo"@.len());
        },
        RuleView::Proximity => {
            assert("Proximity"@.len() != "Typo"@.len());
            assert("Proximity"@.len() != "Words"@.len());
        },
        RuleView::Attribute => {
            assert("Attribute"@.len() != "Typo"@.len());
            assert("Attribute"@.len() != "Words"@.len());
            assert("Attribute"@[0] != "Proximity"@[0]);
        },
        RuleView::WordsPosition => {
            assert("WordsPosition"@.len() != "Typo"@.len());
            assert("WordsPosition"@.len() != "Words"@.len());
            assert("WordsPosition"@.len() != "Proximity"@.len());
            assert("WordsPosition"@.len() != "Attribute"@.len());
        },
        RuleView::Exactness => {
            assert("Exactness"@.len() != "Typo"@.len());
            assert("Exactness"@.len() != "Words"@.len());
            assert("Exactness"@[0] != "Proximity"@[0]);
            assert("Exactness"@[0] != "Attribute"@[0]);
            assert("Exactness"@.len() != "WordsPosition"@.len());
        },
    }
}

proof fn lemma_rule_list_round_trip(value: Json, rules: Seq<RuleView>)
    requires
        rule_list_json(value, rules),
    ensures
        rule_list_of(value) == Some(rules),
{
    let items = value->Array_0@;
    assert forall|i: int| 0 <= i < items.len() implies #[trigger] rule_of(items[i]) == Some(rules[i]) by {
        assert(rule_json(items[i], rules[i]));
        lemma_rule_round_trip(items[i], rules[i]);
    }
    assert(forall|i: int| 0 <= i < items.len() ==> (#[trigger] rule_of(items[i])) is Some);
    assert(Seq::new(items.len(), |i: int| rule_of(items[i])->0) =~= rules);
}

/// Reading what a settings update is written as gives the same update back:
/// every setting left as it is, cleared, or set to the same value.
pub proof fn lemma_settings_round_trip(value: Json, v: SettingsView)
    requires
        settings_json(value, v),
    ensures
        settings_of(value) == Some(v),
{
    let m = value->Object_0@;
    if let UpdateState::Update(x) = v.ranking_rules {
        lemma_rule_list_round_trip(member(m, "rankingRules"@)->0, x);
    }
}

/// Writes a ranking rule.
pub fn encode_rule(rule: &RankingRule) -> (r: Json)
    ensures
        rule_json(r, rule@),
{
    match rule {
        RankingRule::Typo => Json::Str(text("Typo")),
        RankingRule::Words => Json::Str(text("Words")),
        RankingRule::Proximity => Json::Str(text("Proximity")),
        RankingRule::Attribute => Json::Str(text("Attribute")),
        RankingRule::WordsPosition => Json::Str(text("WordsPosition")),
        RankingRule::Exactness => Json::Str(text("Exactness")),
        RankingRule::Asc(a) => {
            let mut m: Vec<(String, Json)> = Vec::new();
            m.push((text("Asc"), Json::Str(a.clone())));
            Json::Object(m)
        },
        RankingRule::Dsc(a) => {
            let mut m: Vec<(String, Json)> = Vec::new();
            m.push((text("Dsc"), Json::Str(a.clone())));
            Json::Object(m)
        },
    }
}

/// Writes a list of ranking rules.
pub fn encode_rules(rules: &Vec<RankingRule>) -> (r: Json)
    ensures
        rule_list_json(r, rules_view(*rules)),
{
    let mut items: Vec<Json> = Vec::new();
    let mut i: usize = 0;
    while i < rules.len()
        invariant
            i <= rules.len(),
            items@.len() == i,
            forall|k: int| 0 <= k < i ==> #[trigger] rule_json(items@[k], rules@[k]@),
        decreases rules.len() - i,
    {
        items.push(encode_rule(&rules[i]));
        i += 1;
    }
    let r = Json::Array(items);
    assert forall|k: int| 0 <= k < rules@.len() implies #[trigger] rule_json(
        r->Array_0@[k],
        rules_view(*rules)[k],
    ) by {
        assert(rule_json(items@[k], rules@[k]@));
    }
    r
}

/// Writes a synonym map.
pub fn encode_synonyms(entries: &Vec<(String, Vec<String>)>) -> (r: Json)
    ensures
        synonyms_of(r) == Some(entries_map(synonym_entries(entries@))),
{
    let mut m: Vec<(String, Json)> = Vec::new();
    let mut i: usize = 0;
    while i < entries.len()
        invariant
            i <= entries.len(),
            m@.len() == i,
            forall|k: int|
                0 <= k < i ==> (#[trigger] string_list_of(m@[k].1)) == Some(views_of(entries@[k].1@))
                    && m@[k].0@ == entries@[k].0@,
        decreases entries.len() - i,
    {
        m.push((entries[i].0.clone(), string_list(&entries[i].1)));
        i += 1;
    }
    assert(forall|k: int| 0 <= k < m@.len() ==> (#[trigger] string_list_of(m@[k].1)) is Some);
    assert(synonym_entries(entries@) =~= Seq::new(m@.len(), |k: int| (m@[k].0@, string_list_of(m@[k].1)->0)));
    Json::Object(m)
}

/// Adds the member `key` to an object's members, where `value` is given.
fn put(members: &mut Vec<(String, Json)>, key: &str, value: Option<Json>)
    requires
        member(old(members)@, key@) is None,
    ensures
        forall|k: Seq<char>| k != key@ ==> #[trigger] member(final(members)@, k) == member(old(members)@, k),
        member(final(members)@, key@) == value,
{
    match value {
        Some(v) => {
            let name = text(key);
            let ghost before = members@;
            let ghost entry = (name, v);
            members.push((name, v));
            assert forall|k: Seq<char>| #[trigger] member(members@, k) == (if k == key@ {
                value
            } else {
                member(before, k)
            }) by {
                lemma_member_push(before, entry, k);
            }
        },
        None => {},
    }
}

/// Writes a settings update: an object with a member for each setting that it
/// touches, null for one that it clears.
#[verifier::rlimit(50)]
pub fn encode_settings(settings: &SettingsUpdate) -> (r: Json)
    ensures
        settings_json(r, settings@),
        settings_of(r) == Some(settings@),
{
    let ranking_rules = match &settings.ranking_rules {
        UpdateState::Update(v) => Some(encode_rules(v)),
        UpdateState::Clear => Some(Json::Null),
        UpdateState::Nothing => None,
    };
    let distinct_attribute = match &settings.distinct_attribute {
        UpdateState::Update(v) => Some(Json::Str(v.clone())),
        UpdateState::Clear => Some(Json::Null),
        UpdateState::Nothing => None,
    };
    let identifier = match &settings.identifier {
        UpdateState::Update(v) => Some(Json::Str(v.clone())),
        UpdateState::Clear => Some(Json::Null),
        UpdateState::Nothing => None,
    };
    let searchable_attributes = match &settings.searchable_attributes {
        UpdateState::Update(v) => Some(string_list(v)),
        UpdateState::Clear => Some(Json::Null),
        UpdateState::Nothing => None,
    };
    let displayed_attributes = match &settings.displayed_attributes {
        UpdateState::Update(v) => Some(string_list(v)),
        UpdateState::Clear => Some(Json::Null),
        UpdateState::Nothing => None,
    };
    let stop_words = match &settings.stop_words {
        UpdateState::Update(v) => Some(string_list(v)),
        UpdateState::Clear => Some(Json::Null),
        UpdateState::Nothing => None,
    };
    let synonyms = match &settings.synonyms {
        UpdateState::Update(v) => Some(encode_synonyms(v)),
        UpdateState::Clear => Some(Json::Null),
        UpdateState::Nothing => None,
    };
    let accept_new_fields = match &settings.accept_new_fields {
        UpdateState::Update(b) => Some(Json::Bool(*b)),
        UpdateState::Clear => Some(Json::Null),
        UpdateState::Nothing => None,
    };
    let ghost v = settings@;
    assert(slot_json(ranking_rules, v.ranking_rules, |j: Json, x: Seq<RuleView>| rule_list_json(j, x)));
    assert(slot_json(distinct_attribute, v.distinct_attribute, |j: Json, x: Seq<char>| str_of(j) == Some(x)));
    assert(slot_json(identifier, v.identifier, |j: Json, x: Seq<char>| str_of(j) == Some(x)));
    assert(slot_json(
        searchable_attributes,
        v.searchable_attributes,
        |j: Json, x: Seq<Seq<char>>| string_list_of(j) == Some(x),
    ));
    assert(slot_json(
        displayed_attributes,
        v.displayed_attributes,
        |j: Json, x: Set<Seq<char>>| string_set_of(j) == Some(x),
    ));
    assert(slot_json(stop_words, v.stop_words, |j: Json, x: Set<Seq<char>>| string_set_of(j) == Some(x)));
    assert(slot_json(
        synonyms,
        v.synonyms,
        |j: Json, x: Map<Seq<char>, Seq<Seq<char>>>| synonyms_of(j) == Some(x),
    ));
    assert(slot_json(accept_new_fields, v.accept_new_fields, |j: Json, x: bool| j == Json::Bool(x)));
    let ghost slots = (
        ranking_rules,
        distinct_attribute,
        identifier,
        searchable_attributes,
        displayed_attributes,
        stop_words,
        synonyms,
        accept_new_fields,
    );
    proof {
        reveal_strlit("rankingRules");
        reveal_strlit("distinctAttribute");
        reveal_strlit("identifier");
        reveal_strlit("searchableAttributes");
        reveal_strlit("displayedAttributes");
        reveal_strlit("stopWords");
        reveal_strlit("synonyms");
        reveal_strlit("acceptNewFields");
        assert("rankingRules"@.len() == 12);
        assert("distinctAttribute"@.len() == 17);
        assert("identifier"@.len() == 10);
        assert("searchableAttributes"@.len() == 20);
        assert("displayedAttributes"@.len() == 19);
        assert("stopWords"@.len() == 9);
        assert("synonyms"@.len() == 8);
        assert("acceptNewFields"@.len() == 15);
    }
    let mut m: Vec<(String, Json)> = Vec::new();
    assert(forall|k: Seq<char>| #[trigger] member(m@, k) is None);
    put(&mut m, "rankingRules", ranking_rules);
    put(&mut m, "distinctAttribute", distinct_attribute);
    put(&mut m, "identifier", identifier);
    put(&mut m, "searchableAttributes", searchable_attributes);
    put(&mut m, "displayedAttributes", displayed_attributes);
    put(&mut m, "stopWords", stop_words);
    put(&mut m, "synonyms", synonyms);
    put(&mut m, "acceptNewFields", accept_new_fields);
    assert(member(m@, "rankingRules"@) == slots.0);
    assert(member(m@, "distinctAttribute"@) == slots.1);
    assert(member(m@, "identifier"@) == slots.2);
    assert(member(m@, "searchableAttributes"@) == slots.3);
    assert(member(m@, "displayedAttributes"@) == slots.4);
    assert(member(m@, "stopWords"@) == slots.5);
    assert(member(m@, "synonyms"@) == slots.6);
    assert(member(m@, "acceptNewFields"@) == slots.7);
    let r = Json::Object(m);
    proof {
        lemma_settings_round_trip(r, settings@);
    }
    r
}

} // verus!
