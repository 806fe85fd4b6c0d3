use depicts_bot::cache::EntityCache;
use depicts_bot::candidate::{CategoryItemImage, ItemArticleImagesPageImage};
use depicts_bot::claim::{
    add_baserevid, add_bot_flag, add_edit_token, add_param, add_summary, claim_data,
    create_claim_params, edit_summary, kind_name, media_entity_id, snak_type_name, value_json,
    value_type_name, SnakType, Statement,
};
use depicts_bot::entity::{Claim, ClaimValue, EntityKind, EntityRecord};
use depicts_bot::json::Json;
use depicts_bot::log::{in_log, log_line, mentions_all, quote};
use depicts_bot::mw::{ConfigError, Login, MW};
use depicts_bot::pipeline::{
    drop_logged, is_pair_logged, items_of, record_is_category, resolve_images, resolve_topics,
    revalidate, unlogged_articles,
};

fn item(id: &str) -> ClaimValue {
    ClaimValue::Entity { kind: EntityKind::Item, id: id.to_string() }
}

fn claim(property: &str, value: Option<ClaimValue>) -> Claim {
    Claim { property: property.to_string(), value }
}

fn record(id: &str, claims: Vec<Claim>) -> EntityRecord {
    EntityRecord { id: id.to_string(), claims }
}

fn candidate(category: &str, item: Option<&str>, image: Option<&str>) -> CategoryItemImage {
    CategoryItemImage {
        category: category.to_string(),
        item: item.map(|s| s.to_string()),
        image: image.map(|s| s.to_string()),
    }
}

fn pair(name: &str, value: &str) -> (String, String) {
    (name.to_string(), value.to_string())
}

fn sample() -> EntityRecord {
    record(
        "Q10",
        vec![
            claim("P31", Some(item("Q4167836"))),
            claim("P18", None),
            claim("P18", Some(ClaimValue::Other)),
            claim("P18", Some(ClaimValue::StringValue("First.jpg".to_string()))),
            claim("P301", Some(item("Q20"))),
            claim("P18", Some(ClaimValue::StringValue("Second.jpg".to_string()))),
            claim("P180", Some(ClaimValue::Entity { kind: EntityKind::Property, id: "P5".to_string() })),
        ],
    )
}

#[test]
fn lists_the_values_of_a_property() {
    let r = sample();
    assert_eq!(
        r.values_for_property("P18"),
        vec![
            ClaimValue::Other,
            ClaimValue::StringValue("First.jpg".to_string()),
            ClaimValue::StringValue("Second.jpg".to_string()),
        ]
    );
    assert_eq!(r.values_for_property("P301"), vec![item("Q20")]);
    assert_eq!(r.values_for_property("P999"), vec![]);
}

#[test]
fn finds_a_target_entity() {
    let r = sample();
    assert!(r.has_target_entity("P31", "Q4167836"));
    assert!(!r.has_target_entity("P31", "Q5"));
    assert!(!r.has_target_entity("P301", "Q4167836"));
    assert!(r.has_target_entity("P180", "P5"));
    assert!(!r.has_target_entity("P18", "First.jpg"));
    assert!(record_is_category(&r));
    assert!(!record_is_category(&record("Q1", vec![claim("P31", Some(item("Q5")))])));
}

#[test]
fn tells_a_statement_by_property_kind_and_identifier() {
    let r = sample();
    assert!(r.has_statement("P31", EntityKind::Item, "Q4167836"));
    assert!(!r.has_statement("P31", EntityKind::Property, "Q4167836"));
    assert!(!r.has_statement("P180", EntityKind::Item, "P5"));
    assert!(r.has_statement("P180", EntityKind::Property, "P5"));
    assert!(!r.has_statement("P31", EntityKind::Item, "Q41678360"));
    assert!(item("Q1").is_entity(EntityKind::Item, "Q1"));
    assert!(!ClaimValue::StringValue("Q1".to_string()).is_entity(EntityKind::Item, "Q1"));
    assert!(!ClaimValue::Other.has_target("Q1"));
    assert!(item("Q1").has_target("Q1"));
}

#[test]
fn takes_the_first_value_and_the_first_string() {
    let r = sample();
    assert_eq!(r.first_value("P18"), Some(ClaimValue::Other));
    assert_eq!(r.first_value("P301"), Some(item("Q20")));
    assert_eq!(r.first_value("P1"), None);
    assert_eq!(r.first_string_value("P18"), Some("First.jpg".to_string()));
    assert_eq!(r.first_string_value("P301"), None);
    assert_eq!(record("Q1", vec![claim("P18", None)]).first_value("P18"), None);
}

#[test]
fn copies_are_equal() {
    let r = sample();
    assert_eq!(r.duplicate(), r);
    assert_eq!(r.claims[4].duplicate(), r.claims[4]);
    assert_eq!(item("Q1").duplicate(), item("Q1"));
    let c = candidate("Cat", Some("Q1"), None);
    assert_eq!(c.duplicate(), c);
}

#[test]
fn cache_stores_replaces_and_drops() {
    let mut cache = EntityCache::new();
    assert_eq!(cache.len(), 0);
    assert!(!cache.has_entity("Q1"));
    assert_eq!(cache.get_entity("Q1"), None);
    cache.set_entity(record("Q1", vec![]));
    cache.set_entity(record("Q2", vec![claim("P18", None)]));
    assert_eq!(cache.len(), 2);
    assert!(cache.has_entity("Q1"));
    assert_eq!(cache.get_entity("Q2"), Some(&record("Q2", vec![claim("P18", None)])));
    cache.set_entity(record("Q1", vec![claim("P31", Some(item("Q5")))]));
    assert_eq!(cache.len(), 2);
    assert_eq!(cache.get_entity("Q1"), Some(&record("Q1", vec![claim("P31", Some(item("Q5")))])));
    assert_eq!(cache.remove_entity("Q3"), None);
    assert_eq!(cache.remove_entity("Q1"), Some(record("Q1", vec![claim("P31", Some(item("Q5")))])));
    assert_eq!(cache.len(), 1);
    assert!(!cache.has_entity("Q1"));
    assert!(cache.has_entity("Q2"));
    assert_eq!(cache.remove_entity("Q1"), None);
}

#[test]
fn context_starts_with_the_usual_settings() {
    let mw = MW::new("https://commons.wikimedia.org/w/api.php");
    assert_eq!(mw.api_url, "https://commons.wikimedia.org/w/api.php");
    assert_eq!(mw.edit_delay_ms, Some(500));
    assert_eq!(mw.timeout_secs, 240);
    assert_eq!(mw.bot_log_file, "bot.log");
    assert!(!mw.verbose);
    assert!(!mw.is_bot);
    assert_eq!(mw.ec.len(), 0);
}

#[test]
fn context_needs_user_and_password() {
    let url = "https://commons.wikimedia.org/w/api.php";
    match MW::new_from_ini_file(Some("bot".to_string()), Some("secret".to_string()), url) {
        Ok((mw, login)) => {
            assert_eq!(login, Login { name: "bot".to_string(), password: "secret".to_string() });
            assert_eq!(mw.api_url, url);
            assert_eq!(mw.edit_delay_ms, Some(500));
        },
        Err(e) => panic!("{:?}", e),
    }
    assert_eq!(MW::new_from_ini_file(None, Some("p".to_string()), url).err(), Some(ConfigError::NoUser));
    assert_eq!(MW::new_from_ini_file(None, None, url).err(), Some(ConfigError::NoUser));
    assert_eq!(
        MW::new_from_ini_file(Some("u".to_string()), None, url).err(),
        Some(ConfigError::NoPassword)
    );
}

#[test]
fn context_loads_into_its_cache() {
    let mut mw = MW::new("https://commons.wikimedia.org/w/api.php");
    assert!(mw.needs_loading("M1"));
    assert_eq!(mw.load_entity("M1", None), None);
    assert_eq!(mw.load_entity("M1", Some(record("M1", vec![]))), Some(&record("M1", vec![])));
    assert!(!mw.needs_loading("M1"));
    assert_eq!(mw.load_entity("M1", None), Some(&record("M1", vec![])));
    assert_eq!(mw.load_entity("M2", Some(record("M3", vec![]))), None);
    assert!(!mw.needs_loading("M3"));
    mw.claim_created("M1");
    assert!(mw.needs_loading("M1"));
    assert!(!mw.needs_loading("M3"));
}

#[test]
fn quotes_and_finds_parts_in_lines() {
    assert_eq!(quote("Q1"), "\"Q1\"");
    assert_eq!(quote(""), "\"\"");
    let q1 = "Q1".to_string();
    let file = "File:A.jpg".to_string();
    let line = "Adding \"P180\": \"Q1\" to \"File:A.jpg\"";
    assert!(mentions_all(line, &vec![&q1, &file]));
    assert!(mentions_all(line, &vec![]));
    assert!(!mentions_all(line, &vec![&q1, &"File:B.jpg".to_string()]));
    assert!(!mentions_all("Q1 File:A.jpg", &vec![&q1]));
    assert!(!mentions_all(line, &vec![&"Q".to_string()]));
}

#[test]
fn all_parts_must_stand_in_one_line() {
    let q1 = "Q1".to_string();
    let file = "File:A.jpg".to_string();
    let split = vec!["has \"Q1\"".to_string(), "has \"File:A.jpg\"".to_string()];
    assert!(!in_log(&split, &vec![&q1, &file]));
    assert!(in_log(&split, &vec![&q1]));
    assert!(in_log(&split, &vec![&file]));
    let joined = vec!["x".to_string(), "\"File:A.jpg\" and \"Q1\"".to_string()];
    assert!(in_log(&joined, &vec![&q1, &file]));
    assert!(!in_log(&vec![], &vec![&q1]));
    assert!(!in_log(&vec![], &vec![]));
    assert!(in_log(&split, &vec![]));
    let mw = MW::new("u");
    assert!(mw.in_bot_log(&joined, vec![&q1, &file]));
    assert!(!mw.in_bot_log(&split, vec![&q1, &file]));
}

#[test]
fn the_log_is_an_approximate_check() {
    let lines = vec!["Adding \"P180\": \"Q1\" to \"Q2\"".to_string()];
    assert!(is_pair_logged(&lines, &"Q2".to_string(), &"Q1".to_string()));
    assert!(is_pair_logged(&lines, &"P180".to_string(), &"Q1".to_string()));
}

#[test]
fn a_recorded_pair_is_found_again() {
    assert_eq!(log_line("Q1", "File:A.jpg"), "Adding \"P180\": \"Q1\" to \"File:A.jpg\"");
    let mw = MW::new("u");
    let mut lines: Vec<String> = vec![];
    assert!(!is_pair_logged(&lines, &"Q1".to_string(), &"File:A.jpg".to_string()));
    let echo = mw.append_log(&mut lines, log_line("Q1", "File:A.jpg"));
    assert!(!echo);
    assert_eq!(lines, vec!["Adding \"P180\": \"Q1\" to \"File:A.jpg\"".to_string()]);
    assert!(is_pair_logged(&lines, &"Q1".to_string(), &"File:A.jpg".to_string()));
    assert!(!is_pair_logged(&lines, &"Q1".to_string(), &"File:B.jpg".to_string()));
    let mut loud = MW::new("u");
    loud.verbose = true;
    assert!(loud.append_log(&mut lines, "x".to_string()));
    assert_eq!(lines.len(), 2);
}

#[test]
fn names_kinds_and_snak_types() {
    assert_eq!(kind_name(EntityKind::Item), "item");
    assert_eq!(kind_name(EntityKind::Property), "property");
    assert_eq!(kind_name(EntityKind::MediaInfo), "mediainfo");
    assert_eq!(kind_name(EntityKind::Lexeme), "lexeme");
    assert_eq!(kind_name(EntityKind::LexemeSense), "sense");
    assert_eq!(kind_name(EntityKind::LexemeForm), "form");
    assert_eq!(kind_name(EntityKind::EntitySchema), "entity-schema");
    assert_eq!(snak_type_name(SnakType::Value), "value");
    assert_eq!(snak_type_name(SnakType::NoValue), "novalue");
    assert_eq!(snak_type_name(SnakType::UnknownValue), "somevalue");
}

#[test]
fn writes_values_as_json() {
    assert_eq!(value_json(&item("Q1")), Some("{\"entity-type\":\"item\",\"id\":\"Q1\"}".to_string()));
    assert_eq!(
        value_json(&ClaimValue::StringValue("a \"b\" \\ c\n\t\u{1}\u{1f}é/".to_string())),
        Some("\"a \\\"b\\\" \\\\ c\\n\\t\\u0001\\u001fé/\"".to_string())
    );
    assert_eq!(
        value_json(&ClaimValue::StringValue("\u{8}\u{c}\r\u{7f}".to_string())),
        Some("\"\\b\\f\\r\u{7f}\"".to_string())
    );
    assert_eq!(value_json(&ClaimValue::Other), None);
}

#[test]
fn writes_the_edit_as_json() {
    let value = value_json(&item("Q1")).unwrap();
    let data = claim_data(SnakType::Value, "wikibase-entityid", "P180", &value, "preferred");
    assert_eq!(
        data,
        "{\"claims\":[{\"mainsnak\":{\"datavalue\":{\"type\":\"wikibase-entityid\",\"value\":{\"entity-type\":\"item\",\"id\":\"Q1\"}},\"property\":\"P180\",\"snaktype\":\"value\"},\"rank\":\"preferred\",\"type\":\"statement\"}]}"
    );
    let parsed = Json::parse(&data).unwrap();
    let claim = parsed.get("claims").unwrap().at(0).unwrap();
    assert_eq!(claim.get_str("rank"), Some(&"preferred".to_string()));
    assert_eq!(claim.get_str("type"), Some(&"statement".to_string()));
    assert_eq!(claim.get_str2("mainsnak", "property"), Some(&"P180".to_string()));
    assert_eq!(claim.get_str2("mainsnak", "snaktype"), Some(&"value".to_string()));
    let datavalue = claim.get2("mainsnak", "datavalue").unwrap();
    assert_eq!(datavalue.get_str("type"), Some(&"wikibase-entityid".to_string()));
    assert_eq!(datavalue.get_str2("value", "id"), Some(&"Q1".to_string()));
    assert_eq!(datavalue.get_str2("value", "entity-type"), Some(&"item".to_string()));
}

#[test]
fn odd_characters_survive_the_edit() {
    let odd = "a\"b\\c\nd";
    let value = value_json(&ClaimValue::StringValue(odd.to_string())).unwrap();
    let data = claim_data(SnakType::UnknownValue, odd, odd, &value, odd);
    let parsed = Json::parse(&data).unwrap();
    let claim = parsed.get("claims").unwrap().at(0).unwrap();
    assert_eq!(claim.get_str("rank"), Some(&odd.to_string()));
    assert_eq!(claim.get_str2("mainsnak", "property"), Some(&odd.to_string()));
    assert_eq!(claim.get_str2("mainsnak", "snaktype"), Some(&"somevalue".to_string()));
    assert_eq!(claim.get2("mainsnak", "datavalue").unwrap().get_str("value"), Some(&odd.to_string()));
}

#[test]
fn names_the_item_in_the_summary() {
    assert_eq!(
        edit_summary("Q42"),
        "Used with P18 on Wikidata [[:d:Q42|]] #rust_commons_statement"
    );
}

#[test]
fn names_the_metadata_entity() {
    assert_eq!(media_entity_id(0), "M0");
    assert_eq!(media_entity_id(12345), "M12345");
    assert_eq!(media_entity_id(i64::MAX), "M9223372036854775807");
    assert_eq!(media_entity_id(-1), "M-1");
    assert_eq!(media_entity_id(i64::MIN), "M-9223372036854775808");
}

#[test]
fn adds_parameters_in_order() {
    let mut params: Vec<(String, String)> = vec![];
    add_param(&mut params, "a", "1".to_string());
    add_summary(&mut params, None);
    add_summary(&mut params, Some("why".to_string()));
    add_baserevid(&mut params, None);
    add_baserevid(&mut params, Some(77));
    add_bot_flag(&mut params, false);
    add_bot_flag(&mut params, true);
    add_edit_token(&mut params, "tok+\\".to_string());
    assert_eq!(
        params,
        vec![
            pair("a", "1"),
            pair("summary", "why"),
            pair("baserevid", "77"),
            pair("bot", "1"),
            pair("token", "tok+\\"),
        ]
    );
}

#[test]
fn builds_the_whole_request() {
    let data = "{\"claims\":[{\"mainsnak\":{\"datavalue\":{\"type\":\"wikibase-entityid\",\"value\":{\"entity-type\":\"item\",\"id\":\"Q1\"}},\"property\":\"P180\",\"snaktype\":\"value\"},\"rank\":\"normal\",\"type\":\"statement\"}]}";
    assert_eq!(
        create_claim_params(
            "M5",
            SnakType::Value,
            "wikibase-entityid",
            "P180",
            &item("Q1"),
            None,
            None,
            None,
            false,
            "t".to_string()
        ),
        Some(vec![pair("action", "wbeditentity"), pair("id", "M5"), pair("data", data), pair("token", "t")])
    );
    let mut mw = MW::new("u");
    mw.is_bot = true;
    let full = mw.wbcreateclaim(
        &"M5".to_string(),
        SnakType::Value,
        "wikibase-entityid",
        &"P180".to_string(),
        &item("Q1"),
        Some("s".to_string()),
        Some(9),
        Some("preferred"),
        "t".to_string(),
    );
    assert_eq!(
        full,
        Some(vec![
            pair("action", "wbeditentity"),
            pair("id", "M5"),
            pair("data", &data.replace("normal", "preferred")),
            pair("summary", "s"),
            pair("baserevid", "9"),
            pair("bot", "1"),
            pair("token", "t"),
        ])
    );
    assert_eq!(
        mw.wbcreateclaim(
            &"M5".to_string(),
            SnakType::Value,
            "string",
            &"P180".to_string(),
            &ClaimValue::Other,
            None,
            None,
            None,
            "t".to_string()
        ),
        None
    );
}

#[test]
fn a_statement_about_an_item_is_preferred_and_names_the_item() {
    let statement = Statement::about_item("M5", "P180", "Q1");
    assert_eq!(
        statement,
        Statement {
            subject: "M5".to_string(),
            property: "P180".to_string(),
            value: item("Q1"),
            rank: "preferred".to_string(),
            summary: Some("Used with P18 on Wikidata [[:d:Q1|]] #rust_commons_statement".to_string()),
            base_revision: None,
        }
    );
    assert_eq!(value_type_name(&statement.value), "wikibase-entityid");
    assert_eq!(value_type_name(&ClaimValue::StringValue("x".to_string())), "string");
    let data = "{\"claims\":[{\"mainsnak\":{\"datavalue\":{\"type\":\"wikibase-entityid\",\"value\":{\"entity-type\":\"item\",\"id\":\"Q1\"}},\"property\":\"P180\",\"snaktype\":\"value\"},\"rank\":\"preferred\",\"type\":\"statement\"}]}";
    assert_eq!(
        statement.request(false, "t".to_string()),
        Some(vec![
            pair("action", "wbeditentity"),
            pair("id", "M5"),
            pair("data", data),
            pair("summary", "Used with P18 on Wikidata [[:d:Q1|]] #rust_commons_statement"),
            pair("token", "t"),
        ])
    );
}

#[test]
fn a_statement_with_a_string_or_an_unread_value() {
    let text = Statement {
        subject: "Q5".to_string(),
        property: "P18".to_string(),
        value: ClaimValue::StringValue("A.jpg".to_string()),
        rank: "normal".to_string(),
        summary: None,
        base_revision: Some(12),
    };
    let data = "{\"claims\":[{\"mainsnak\":{\"datavalue\":{\"type\":\"string\",\"value\":\"A.jpg\"},\"property\":\"P18\",\"snaktype\":\"value\"},\"rank\":\"normal\",\"type\":\"statement\"}]}";
    assert_eq!(
        text.request(true, "t".to_string()),
        Some(vec![
            pair("action", "wbeditentity"),
            pair("id", "Q5"),
            pair("data", data),
            pair("baserevid", "12"),
            pair("bot", "1"),
            pair("token", "t"),
        ])
    );
    let unread = Statement {
        subject: "Q5".to_string(),
        property: "P625".to_string(),
        value: ClaimValue::Other,
        rank: "normal".to_string(),
        summary: None,
        base_revision: None,
    };
    assert_eq!(unread.request(true, "t".to_string()), None);
}

#[test]
fn lists_what_has_to_be_fetched() {
    let mut cache = EntityCache::new();
    cache.set_entity(record("Q2", vec![]));
    let ids: Vec<String> =
        ["Q3", "Q2", "Q1", "Q3", "Q1", "Q4"].iter().map(|s| s.to_string()).collect();
    assert_eq!(cache.to_fetch(&ids), vec!["Q3".to_string(), "Q1".to_string(), "Q4".to_string()]);
    assert_eq!(cache.to_fetch(&vec![]), Vec::<String>::new());
    assert_eq!(cache.to_fetch(&vec!["Q2".to_string()]), Vec::<String>::new());
}

fn scan_cache() -> EntityCache {
    let mut cache = EntityCache::new();
    cache.set_entity(record(
        "Q100",
        vec![claim("P31", Some(item("Q4167836"))), claim("P301", Some(item("Q101")))],
    ));
    cache.set_entity(record("Q101", vec![
        claim("P31", Some(item("Q41176"))),
        claim("P18", Some(ClaimValue::StringValue("Town hall.jpg".to_string()))),
    ]));
    cache.set_entity(record("Q200", vec![claim("P31", Some(item("Q41176")))]));
    cache.set_entity(record(
        "Q300",
        vec![
            claim("P31", Some(item("Q4167836"))),
            claim("P301", Some(ClaimValue::StringValue("Q301".to_string()))),
            claim("P301", Some(item("Q302"))),
        ],
    ));
    cache.set_entity(record("Q400", vec![claim("P31", Some(item("Q4167836")))]));
    cache.set_entity(record(
        "Q500",
        vec![claim("P31", Some(item("Q4167836"))), claim("P301", None), claim("P301", Some(item("Q100")))],
    ));
    cache
}

#[test]
fn lists_the_items_to_load() {
    let candidates = vec![
        candidate("A", Some("Q100"), None),
        candidate("B", None, None),
        candidate("C", Some("Q200"), Some("x")),
    ];
    assert_eq!(items_of(&candidates), vec!["Q100".to_string(), "Q200".to_string()]);
    assert_eq!(items_of(&vec![]), Vec::<String>::new());
}

#[test]
fn redirects_categories_to_their_main_topics() {
    let cache = scan_cache();
    let candidates = vec![
        candidate("Cat 100", Some("Q100"), None),
        candidate("Not cached", Some("Q999"), None),
        candidate("No category", Some("Q200"), None),
        candidate("Topic is text", Some("Q300"), None),
        candidate("No topic", Some("Q400"), None),
        candidate("No item", None, None),
        candidate("Cat 500", Some("Q500"), Some("kept.jpg")),
    ];
    let (kept, to_load) = resolve_topics(&candidates, &cache);
    assert_eq!(
        kept,
        vec![candidate("Cat 100", Some("Q101"), None), candidate("Cat 500", Some("Q100"), Some("kept.jpg"))]
    );
    assert_eq!(to_load, vec!["Q101".to_string(), "Q100".to_string()]);
}

#[test]
fn gives_each_candidate_its_image() {
    let cache = scan_cache();
    let candidates = vec![
        candidate("With image", Some("Q101"), None),
        candidate("Without image", Some("Q200"), Some("old.jpg")),
        candidate("Not cached", Some("Q999"), None),
        candidate("No item", None, Some("x.jpg")),
    ];
    assert_eq!(
        resolve_images(&candidates, &cache),
        vec![candidate("With image", Some("Q101"), Some("Town hall.jpg"))]
    );
}

#[test]
fn drops_what_the_log_holds() {
    let lines = vec![
        "noise".to_string(),
        log_line("Q1", "A.jpg"),
        log_line("Q2", "B.jpg"),
    ];
    let candidates = vec![
        candidate("one", Some("Q1"), Some("A.jpg")),
        candidate("two", Some("Q1"), Some("B.jpg")),
        candidate("three", Some("Q2"), Some("B.jpg")),
        candidate("four", Some("Q3"), None),
        candidate("five", None, Some("A.jpg")),
        candidate("six", Some("Q3"), Some("C.jpg")),
    ];
    assert_eq!(
        drop_logged(&candidates, &lines),
        vec![candidate("two", Some("Q1"), Some("B.jpg")), candidate("six", Some("Q3"), Some("C.jpg"))]
    );
    assert_eq!(drop_logged(&candidates, &vec![]).len(), 4);
}

#[test]
fn looks_at_each_item_once_more() {
    let cache = scan_cache();
    let candidates = vec![
        candidate("still a category", Some("Q100"), Some("a.jpg")),
        candidate("fine", Some("Q101"), Some("b.jpg")),
        candidate("not cached", Some("Q999"), Some("c.jpg")),
        candidate("no item", None, Some("d.jpg")),
    ];
    assert_eq!(revalidate(&candidates, &cache), vec![candidate("fine", Some("Q101"), Some("b.jpg"))]);
}

#[test]
fn marks_the_articles_that_go_on() {
    let lines = vec![log_line("Q1", "A.jpg")];
    let article = |q: &str, p18: Option<&str>| ItemArticleImagesPageImage {
        q: q.to_string(),
        article: "Article".to_string(),
        p18: p18.map(|s| s.to_string()),
        pageimage: None,
    };
    let candidates = vec![article("Q1", Some("A.jpg")), article("Q1", Some("B.jpg")), article("Q2", None)];
    assert_eq!(unlogged_articles(&candidates, &lines), vec![false, true, false]);
    assert_eq!(unlogged_articles(&candidates, &vec![]), vec![true, true, false]);
}
