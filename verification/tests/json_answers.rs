use depicts_bot::candidate::{
    candidates_from_query, candidates_from_scan, CategoryItemImage, ItemArticleImagesPageImage,
    SourceError,
};
use depicts_bot::json::Json;
use depicts_bot::mw::MW;
use depicts_bot::responses::{
    free_page_image_from, page_id_from, pages, query_params, template_query, templates_from,
    PageIdError,
};

fn parsed(text: &str) -> Json {
    match Json::parse(text) {
        Some(json) => json,
        None => panic!("not JSON: {}", text),
    }
}

fn pair(name: &str, value: &str) -> (String, String) {
    (name.to_string(), value.to_string())
}

#[test]
fn parses_every_kind_of_value() {
    let json = parsed(r#" {"s":"x\ny","n":-12.5,"t":true,"f":false,"z":null,"a":[1,"two",[]],"o":{}} "#);
    assert_eq!(
        json,
        Json::Object(vec![
            (
                "a".to_string(),
                Json::Array(vec![
                    Json::Number("1".to_string()),
                    Json::Str("two".to_string()),
                    Json::Array(vec![]),
                ])
            ),
            ("f".to_string(), Json::Bool(false)),
            ("n".to_string(), Json::Number("-12.5".to_string())),
            ("o".to_string(), Json::Object(vec![])),
            ("s".to_string(), Json::Str("x\ny".to_string())),
            ("t".to_string(), Json::Bool(true)),
            ("z".to_string(), Json::Null),
        ])
    );
}

#[test]
fn refuses_text_that_is_not_json() {
    assert_eq!(Json::parse(""), None);
    assert_eq!(Json::parse("{"), None);
    assert_eq!(Json::parse("{\"a\":1} x"), None);
    assert_eq!(Json::parse("'a'"), None);
    assert_eq!(Json::parse("\"a\""), Some(Json::Str("a".to_string())));
}

#[test]
fn looks_up_members_and_elements() {
    let json = parsed(r#"{"a":{"b":"deep","c":[10,20]},"s":"text"}"#);
    assert_eq!(json.get("s"), Some(&Json::Str("text".to_string())));
    assert_eq!(json.get("missing"), None);
    assert_eq!(json.get2("a", "b"), Some(&Json::Str("deep".to_string())));
    assert_eq!(json.get2("a", "x"), None);
    assert_eq!(json.get2("s", "b"), None);
    assert_eq!(json.get2("x", "b"), None);
    assert_eq!(json.get_str("s"), Some(&"text".to_string()));
    assert_eq!(json.get_str("a"), None);
    assert_eq!(json.get_str2("a", "b"), Some(&"deep".to_string()));
    assert_eq!(json.get_str2("a", "c"), None);
    let list = json.get2("a", "c").unwrap();
    assert!(list.is_array());
    assert!(!json.is_array());
    assert_eq!(list.at(1), Some(&Json::Number("20".to_string())));
    assert_eq!(list.at(2), None);
    assert_eq!(json.at(0), None);
    assert_eq!(list.as_array().map(|a| a.len()), Some(2));
    assert_eq!(json.as_array(), None);
    assert_eq!(json.as_object().map(|m| m.len()), Some(2));
    assert_eq!(list.as_object(), None);
    assert_eq!(list.as_str(), None);
    assert_eq!(Json::Null.get("a"), None);
}

#[test]
fn the_first_member_with_a_key_wins() {
    let json = Json::Object(vec![
        ("k".to_string(), Json::Bool(true)),
        ("k".to_string(), Json::Bool(false)),
    ]);
    assert_eq!(json.get("k"), Some(&Json::Bool(true)));
}

#[test]
fn builds_queries() {
    assert_eq!(
        query_params("prop", "pageprops", "titles", "File:A.jpg"),
        vec![pair("action", "query"), pair("prop", "pageprops"), pair("titles", "File:A.jpg")]
    );
    let mw = MW::new("https://commons.wikimedia.org/w/api.php");
    assert_eq!(
        mw.api_query_prop2("list", "search", "srsearch", &"x".to_string()),
        vec![pair("action", "query"), pair("list", "search"), pair("srsearch", "x")]
    );
    assert_eq!(
        mw.page_props_query(&"File:A.jpg".to_string()),
        vec![pair("action", "query"), pair("prop", "pageprops"), pair("titles", "File:A.jpg")]
    );
    assert_eq!(
        template_query("File:A.jpg", "Artwork"),
        vec![
            pair("action", "query"),
            pair("prop", "templates"),
            pair("tltemplates", "Template:Artwork"),
            pair("titles", "File:A.jpg"),
        ]
    );
    assert_eq!(mw.artwork_query(&"File:A.jpg".to_string()), template_query("File:A.jpg", "Artwork"));
    assert_eq!(
        mw.template_query(&"File:A.jpg".to_string(), "Information"),
        template_query("File:A.jpg", "Information")
    );
}

#[test]
fn reads_the_page_identifier() {
    let mw = MW::new("https://commons.wikimedia.org/w/api.php");
    let answer = parsed(r#"{"batchcomplete":"","query":{"pages":{"12345":{"pageid":12345,"ns":6,"title":"File:A.jpg"}}}}"#);
    assert_eq!(page_id_from(&answer), Ok(12345));
    assert_eq!(mw.get_page_id(&answer), Ok(12345));
    assert_eq!(pages(&answer).map(|p| p.len()), Some(1));
    let zero = parsed(r#"{"query":{"pages":{"0":{}}}}"#);
    assert_eq!(page_id_from(&zero), Ok(0));
}

#[test]
fn takes_the_first_page_listed() {
    let answer = parsed(r#"{"query":{"pages":{"200":{},"1000":{}}}}"#);
    assert_eq!(page_id_from(&answer), Ok(1000));
    let by_hand = Json::Object(vec![(
        "query".to_string(),
        Json::Object(vec![(
            "pages".to_string(),
            Json::Object(vec![("7".to_string(), Json::Null), ("-1".to_string(), Json::Null)]),
        )]),
    )]);
    assert_eq!(page_id_from(&by_hand), Ok(7));
}

#[test]
fn says_why_there_is_no_page_identifier() {
    assert_eq!(page_id_from(&parsed(r#"{"error":{}}"#)), Err(PageIdError::NoPages));
    assert_eq!(page_id_from(&parsed(r#"{"query":{}}"#)), Err(PageIdError::NoPages));
    assert_eq!(page_id_from(&parsed(r#"{"query":{"pages":[]}}"#)), Err(PageIdError::NoPages));
    assert_eq!(page_id_from(&parsed(r#"[]"#)), Err(PageIdError::NoPages));
    assert_eq!(page_id_from(&parsed(r#"{"query":{"pages":{}}}"#)), Err(PageIdError::NoPageId));
    assert_eq!(
        page_id_from(&parsed(r#"{"query":{"pages":{"-1":{"missing":""}}}}"#)),
        Err(PageIdError::PageMissing)
    );
    assert_eq!(
        page_id_from(&parsed(r#"{"query":{"pages":{"abc":{}}}}"#)),
        Err(PageIdError::BadPageId)
    );
    assert_eq!(
        page_id_from(&parsed(r#"{"query":{"pages":{"99999999999999999999":{}}}}"#)),
        Err(PageIdError::BadPageId)
    );
}

#[test]
fn reads_the_free_page_image() {
    let mw = MW::new("https://commons.wikimedia.org/w/api.php");
    let answer = parsed(r#"{"query":{"pages":{"5":{"pageprops":{"page_image_free":"A_b.jpg","wikibase_item":"Q1"}}}}}"#);
    assert_eq!(free_page_image_from(&answer), Some("A_b.jpg".to_string()));
    assert_eq!(mw.get_free_page_image(&answer), Some("A_b.jpg".to_string()));
    let second = parsed(r#"{"query":{"pages":{"1":{"pageprops":{}},"2":{"pageprops":{"page_image_free":"B.jpg"}},"3":{"pageprops":{"page_image_free":"C.jpg"}}}}}"#);
    assert_eq!(free_page_image_from(&second), Some("B.jpg".to_string()));
}

#[test]
fn finds_no_free_page_image() {
    assert_eq!(free_page_image_from(&parsed(r#"{"query":{"pages":{"5":{"pageprops":{"page_image":"A.jpg"}}}}}"#)), None);
    assert_eq!(free_page_image_from(&parsed(r#"{"query":{"pages":{"5":{"pageprops":{"page_image_free":7}}}}}"#)), None);
    assert_eq!(free_page_image_from(&parsed(r#"{"query":{"pages":{"5":{}}}}"#)), None);
    assert_eq!(free_page_image_from(&parsed(r#"{"query":{"pages":{}}}"#)), None);
    assert_eq!(free_page_image_from(&parsed(r#"{"query":{"pages":[{"pageprops":{"page_image_free":"A.jpg"}}]}}"#)), None);
    assert_eq!(free_page_image_from(&parsed(r#"{}"#)), None);
}

#[test]
fn sees_whether_a_template_is_listed() {
    let mw = MW::new("https://commons.wikimedia.org/w/api.php");
    let with = parsed(r#"{"query":{"pages":{"5":{"title":"File:A.jpg","templates":[{"ns":10,"title":"Template:Artwork"}]}}}}"#);
    assert!(templates_from(&with));
    assert!(mw.page_contains_template(&with));
    let later = parsed(r#"{"query":{"pages":{"5":{"title":"File:A.jpg"},"6":{"templates":[]}}}}"#);
    assert!(templates_from(&later));
    assert!(!templates_from(&parsed(r#"{"query":{"pages":{"5":{"title":"File:A.jpg"}}}}"#)));
    assert!(!templates_from(&parsed(r#"{"query":{"pages":{"5":{"templates":{"0":"x"}}}}}"#)));
    assert!(!templates_from(&parsed(r#"{"query":{"pages":{}}}"#)));
    assert!(!templates_from(&parsed(r#"{"query":{"pages":[{"templates":[]}]}}"#)));
    assert!(!templates_from(&parsed(r#"{"error":"x"}"#)));
}

#[test]
fn is_artwork() {
    let commons = MW::new("https://commons.wikimedia.org/w/api.php");
    let artwork = "File:Lady_Elizabeth_Hamilton_(1753â€“1797),_Countess_of_Derby.jpg".to_string();
    let plain = "File:09797jfBarangays_West_Triangle_Quezon_City_Avenue_Bridgefvf_02.jpg".to_string();
    assert_eq!(
        commons.artwork_query(&artwork),
        vec![
            pair("action", "query"),
            pair("prop", "templates"),
            pair("tltemplates", "Template:Artwork"),
            pair("titles", &artwork),
        ]
    );
    let described = Json::Object(vec![(
        "query".to_string(),
        Json::Object(vec![(
            "pages".to_string(),
            Json::Object(vec![(
                "74218140".to_string(),
                Json::Object(vec![
                    ("ns".to_string(), Json::Number("6".to_string())),
                    (
                        "templates".to_string(),
                        Json::Array(vec![Json::Object(vec![
                            ("ns".to_string(), Json::Number("10".to_string())),
                            ("title".to_string(), Json::Str("Template:Artwork".to_string())),
                        ])]),
                    ),
                    ("title".to_string(), Json::Str(artwork.replace('_', " "))),
                ]),
            )]),
        )]),
    )]);
    let undescribed = Json::Object(vec![(
        "query".to_string(),
        Json::Object(vec![(
            "pages".to_string(),
            Json::Object(vec![(
                "64326241".to_string(),
                Json::Object(vec![
                    ("ns".to_string(), Json::Number("6".to_string())),
                    ("title".to_string(), Json::Str(plain.replace('_', " "))),
                ]),
            )]),
        )]),
    )]);
    assert!(commons.is_artwork(&described));
    assert!(!commons.is_artwork(&undescribed));
}

#[test]
fn reads_the_rows_of_a_category_scan() {
    let answer = parsed(r#"{"n":"result","*":[{"n":"combination","a":{"type":"subset","*":[
        {"id":1,"title":"Buildings_in_Bonn","q":"Q100","namespace":14},
        {"id":2,"title":"No_item"},
        {"id":3,"title":7,"q":"Q7"},
        {"id":4,"title":"Buildings_in_Kiel","q":"Q200"}
    ]}}]}"#);
    assert_eq!(
        candidates_from_scan(&answer),
        Ok(vec![
            CategoryItemImage {
                category: "Buildings_in_Bonn".to_string(),
                item: Some("Q100".to_string()),
                image: None,
            },
            CategoryItemImage {
                category: "Buildings_in_Kiel".to_string(),
                item: Some("Q200".to_string()),
                image: None,
            },
        ])
    );
    assert_eq!(candidates_from_scan(&parsed(r#"{"*":[{"a":{"*":[]}}]}"#)), Ok(vec![]));
}

#[test]
fn refuses_a_scan_of_another_shape() {
    for text in [
        r#"{}"#,
        r#"{"*":{}}"#,
        r#"{"*":[]}"#,
        r#"{"*":[{}]}"#,
        r#"{"*":[{"a":{}}]}"#,
        r#"{"*":[{"a":{"*":{}}}]}"#,
        r#"{"*":[{"a":[]}]}"#,
        r#"null"#,
    ] {
        assert_eq!(candidates_from_scan(&parsed(text)), Err(SourceError::NoRows));
    }
}

#[test]
fn reads_the_rows_of_a_structured_query() {
    let base = Some("http://www.wikidata.org/entity/");
    let answer = parsed(r#"{"head":{"vars":["q","image","article"]},"results":{"bindings":[
        {"q":{"type":"uri","value":"http://www.wikidata.org/entity/Q1"},
         "image":{"type":"uri","value":"http://commons.wikimedia.org/wiki/Special:FilePath/Ada%20Lovelace%20portrait.jpg"},
         "article":{"type":"uri","value":"https://de.wikipedia.org/wiki/Ada_Lovelace"}},
        {"q":{"type":"uri","value":"http://www.wikidata.org/entity/Q2"},
         "image":{"type":"uri","value":"http://commons.wikimedia.org/wiki/Special:FilePath/K%C3%B6ln.jpg"}},
        {"q":{"type":"uri","value":"http://elsewhere.example/Q3"},
         "image":{"type":"uri","value":"http://commons.wikimedia.org/wiki/Special:FilePath/C.jpg"},
         "article":{"type":"uri","value":"https://de.wikipedia.org/wiki/C"}},
        {"q":{"type":"uri","value":"http://www.wikidata.org/entity/Q4"},
         "image":{"type":"uri","value":"http://commons.wikimedia.org/wiki/Special:FilePath/K%C3%B6ln.jpg"},
         "article":{"type":"uri","value":"https://de.wikipedia.org/wiki/K%C3%B6ln%20am%20Rhein"}}
    ]}}"#);
    assert_eq!(
        candidates_from_query(&answer, base),
        Ok(vec![
            ItemArticleImagesPageImage {
                q: "Q1".to_string(),
                article: "Ada_Lovelace".to_string(),
                p18: Some("Ada_Lovelace_portrait.jpg".to_string()),
                pageimage: None,
            },
            ItemArticleImagesPageImage {
                q: "Q4".to_string(),
                article: "Köln_am_Rhein".to_string(),
                p18: Some("Köln.jpg".to_string()),
                pageimage: None,
            },
        ])
    );
    assert_eq!(candidates_from_query(&parsed(r#"{"results":{"bindings":[]}}"#), base), Ok(vec![]));
}

#[test]
fn refuses_a_query_answer_of_another_shape() {
    let base = Some("http://www.wikidata.org/entity/");
    for text in [r#"{}"#, r#"{"results":{}}"#, r#"{"results":{"bindings":{}}}"#, r#"{"results":[]}"#] {
        assert_eq!(candidates_from_query(&parsed(text), base), Err(SourceError::NoRows));
    }
}

#[test]
fn refuses_a_title_that_cannot_be_decoded() {
    let base = Some("http://www.wikidata.org/entity/");
    let bad_image = parsed(r#"{"results":{"bindings":[
        {"q":{"value":"http://www.wikidata.org/entity/Q1"},
         "image":{"value":"http://commons.wikimedia.org/wiki/Special:FilePath/%FF.jpg"},
         "article":{"value":"https://de.wikipedia.org/wiki/A"}}
    ]}}"#);
    assert_eq!(candidates_from_query(&bad_image, base), Err(SourceError::UndecodableTitle));
    let bad_article = parsed(r#"{"results":{"bindings":[
        {"q":{"value":"http://www.wikidata.org/entity/Q1"},
         "image":{"value":"http://commons.wikimedia.org/wiki/Special:FilePath/A.jpg"},
         "article":{"value":"https://de.wikipedia.org/wiki/A"}},
        {"q":{"value":"http://www.wikidata.org/entity/Q2"},
         "image":{"value":"http://commons.wikimedia.org/wiki/Special:FilePath/B.jpg"},
         "article":{"value":"https://de.wikipedia.org/wiki/%C3"}}
    ]}}"#);
    assert_eq!(candidates_from_query(&bad_article, base), Err(SourceError::UndecodableTitle));
    let skipped = parsed(r#"{"results":{"bindings":[
        {"q":{"value":"http://elsewhere.example/Q1"},
         "image":{"value":"http://commons.wikimedia.org/wiki/Special:FilePath/%FF.jpg"},
         "article":{"value":"https://de.wikipedia.org/wiki/A"}}
    ]}}"#);
    assert_eq!(candidates_from_query(&skipped, base), Ok(vec![]));
    assert_eq!(candidates_from_query(&bad_image, None), Ok(vec![]));
    assert_eq!(candidates_from_query(&parsed(r#"{}"#), None), Err(SourceError::NoRows));
}
