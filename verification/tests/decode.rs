use mangadex_wasm::catalog::{
    AtHomeChapter, AtHomeResponse, ChapterAttributes, ChapterData, LocalizedText, Relationship,
    RelationshipAttributes, Tag,
};
use mangadex_wasm::decode::{
    decode_at_home, decode_chapter, decode_chapter_attributes, decode_chapter_feed,
    decode_localized, decode_manga, decode_manga_attributes, decode_manga_list,
    decode_manga_response, decode_relationship, decode_relationships, decode_tag, decode_texts,
};
use mangadex_wasm::json::{parse_json, Json};

fn doc(text: &str) -> Json {
    parse_json(text).unwrap()
}

fn texts(entries: &[(&str, &str)]) -> LocalizedText {
    LocalizedText {
        entries: entries.iter().map(|(lang, text)| (lang.to_string(), text.to_string())).collect(),
    }
}

const MANGA: &str = r#"{
    "id": "m1",
    "type": "manga",
    "attributes": {
        "title": {"en": "One Piece"},
        "altTitles": [{"ja": "ワンピース"}, {"fr": "Une Pièce"}],
        "description": {"en": "Pirates", "fr": "Des pirates"},
        "status": "ongoing",
        "year": 1997,
        "contentRating": "safe",
        "tags": [{"id": "t1", "attributes": {"name": {"en": "Action"}, "group": "genre"}}],
        "originalLanguage": "ja",
        "lastChapter": null,
        "lastVolume": "",
        "publicationDemographic": "shounen",
        "updatedAt": "2024-01-01T00:00:00+00:00"
    },
    "relationships": [
        {"id": "a1", "type": "author", "attributes": {"name": "Oda"}},
        {"id": "c1", "type": "cover_art", "attributes": {"fileName": "cover.jpg", "volume": "1"}},
        {"id": "x1", "type": "manga", "related": "spin_off"}
    ]
}"#;

#[test]
fn localized_text_in_key_order() {
    assert_eq!(
        decode_localized(&doc(r#"{"ja": "b", "en": "a"}"#)),
        Some(texts(&[("en", "a"), ("ja", "b")]))
    );
    assert_eq!(decode_localized(&doc("{}")), Some(texts(&[])));
}

#[test]
fn localized_text_has_to_be_an_object_of_strings() {
    assert_eq!(decode_localized(&doc(r#"{"en": 1}"#)), None);
    assert_eq!(decode_localized(&doc(r#"{"en": "a", "ja": null}"#)), None);
    assert_eq!(decode_localized(&doc("[]")), None);
    assert_eq!(decode_localized(&doc("null")), None);
    assert_eq!(decode_localized(&doc("\"en\"")), None);
}

#[test]
fn relationship_with_inline_attributes() {
    assert_eq!(
        decode_relationship(&doc(
            r#"{"id": "c1", "type": "cover_art", "attributes": {"fileName": "cover.jpg", "name": 5}}"#
        )),
        Some(Relationship {
            id: "c1".to_string(),
            rel_type: "cover_art".to_string(),
            attributes: Some(RelationshipAttributes {
                file_name: Some("cover.jpg".to_string()),
                name: None,
            }),
        })
    );
}

#[test]
fn relationship_without_attributes() {
    let bare = Some(Relationship { id: "a".to_string(), rel_type: "author".to_string(), attributes: None });
    assert_eq!(decode_relationship(&doc(r#"{"id": "a", "type": "author"}"#)), bare);
    assert_eq!(decode_relationship(&doc(r#"{"id": "a", "type": "author", "attributes": null}"#)), bare);
}

#[test]
fn relationship_attributes_of_any_kind_are_taken() {
    let empty = Some(Relationship {
        id: "a".to_string(),
        rel_type: "author".to_string(),
        attributes: Some(RelationshipAttributes { file_name: None, name: None }),
    });
    assert_eq!(decode_relationship(&doc(r#"{"id": "a", "type": "author", "attributes": 7}"#)), empty);
    assert_eq!(decode_relationship(&doc(r#"{"id": "a", "type": "author", "attributes": []}"#)), empty);
    assert_eq!(decode_relationship(&doc(r#"{"id": "a", "type": "author", "attributes": {}}"#)), empty);
}

#[test]
fn relationship_needs_id_and_type() {
    assert_eq!(decode_relationship(&doc(r#"{"id": "a"}"#)), None);
    assert_eq!(decode_relationship(&doc(r#"{"type": "author"}"#)), None);
    assert_eq!(decode_relationship(&doc(r#"{"id": 1, "type": "author"}"#)), None);
    assert_eq!(decode_relationship(&doc(r#"{"id": "a", "type": null}"#)), None);
    assert_eq!(decode_relationship(&doc("[]")), None);
}

#[test]
fn relationships_fail_as_a_whole() {
    assert_eq!(decode_relationships(&doc("[]")), Some(vec![]));
    assert_eq!(
        decode_relationships(&doc(r#"[{"id": "a", "type": "author"}, {"id": "b"}]"#)),
        None
    );
    assert_eq!(decode_relationships(&doc("{}")), None);
    assert_eq!(
        decode_relationships(&doc(r#"[{"id": "a", "type": "x"}, {"id": "b", "type": "y"}]"#))
            .map(|v| v.len()),
        Some(2)
    );
}

#[test]
fn tag_holds_its_name() {
    assert_eq!(
        decode_tag(&doc(r#"{"attributes": {"name": {"en": "Action"}}}"#)),
        Some(Tag { name: texts(&[("en", "Action")]) })
    );
    assert_eq!(decode_tag(&doc(r#"{"attributes": {}}"#)), None);
    assert_eq!(decode_tag(&doc(r#"{"name": {"en": "Action"}}"#)), None);
    assert_eq!(decode_tag(&doc(r#"{"attributes": {"name": "Action"}}"#)), None);
}

#[test]
fn texts_are_a_list_of_strings() {
    assert_eq!(decode_texts(&doc(r#"["1.png", "2.png"]"#)), Some(vec!["1.png".to_string(), "2.png".to_string()]));
    assert_eq!(decode_texts(&doc(r#"["1.png", 2]"#)), None);
    assert_eq!(decode_texts(&doc(r#""1.png""#)), None);
}

#[test]
fn manga_is_read_in_full() {
    let manga = decode_manga(&doc(MANGA)).unwrap();
    assert_eq!(manga.id, "m1");
    assert_eq!(manga.attributes.title, texts(&[("en", "One Piece")]));
    assert_eq!(
        manga.attributes.alt_titles,
        vec![texts(&[("ja", "ワンピース")]), texts(&[("fr", "Une Pièce")])]
    );
    assert_eq!(manga.attributes.description, texts(&[("en", "Pirates"), ("fr", "Des pirates")]));
    assert_eq!(manga.attributes.status, Some("ongoing".to_string()));
    assert_eq!(manga.attributes.year, Some(1997));
    assert_eq!(manga.attributes.content_rating, Some("safe".to_string()));
    assert_eq!(manga.attributes.tags, vec![Tag { name: texts(&[("en", "Action")]) }]);
    assert_eq!(manga.attributes.original_language, Some("ja".to_string()));
    assert_eq!(manga.attributes.last_chapter, None);
    assert_eq!(manga.attributes.last_volume, Some("".to_string()));
    assert_eq!(manga.attributes.publication_demographic, Some("shounen".to_string()));
    assert_eq!(manga.attributes.updated_at, Some("2024-01-01T00:00:00+00:00".to_string()));
    assert_eq!(manga.relationships.len(), 3);
    assert_eq!(manga.relationships[2].attributes, None);
}

#[test]
fn manga_attributes_with_the_least() {
    let a = decode_manga_attributes(&doc(r#"{"title": {}}"#)).unwrap();
    assert_eq!(a.title, texts(&[]));
    assert_eq!(a.alt_titles, vec![]);
    assert_eq!(a.description, texts(&[]));
    assert_eq!(a.status, None);
    assert_eq!(a.year, None);
    assert_eq!(a.tags, vec![]);
    assert_eq!(a.updated_at, None);
}

#[test]
fn manga_attributes_that_are_malformed() {
    assert_eq!(decode_manga_attributes(&doc("{}")), None);
    assert_eq!(decode_manga_attributes(&doc(r#"{"title": "One Piece"}"#)), None);
    assert_eq!(decode_manga_attributes(&doc(r#"{"title": {}, "altTitles": null}"#)), None);
    assert_eq!(decode_manga_attributes(&doc(r#"{"title": {}, "altTitles": [{"en": 1}]}"#)), None);
    assert_eq!(decode_manga_attributes(&doc(r#"{"title": {}, "description": null}"#)), None);
    assert_eq!(decode_manga_attributes(&doc(r#"{"title": {}, "description": []}"#)), None);
    assert_eq!(decode_manga_attributes(&doc(r#"{"title": {}, "status": 1}"#)), None);
    assert_eq!(decode_manga_attributes(&doc(r#"{"title": {}, "year": "1997"}"#)), None);
    assert_eq!(decode_manga_attributes(&doc(r#"{"title": {}, "year": 1997.5}"#)), None);
    assert_eq!(decode_manga_attributes(&doc(r#"{"title": {}, "year": 2147483648}"#)), None);
    assert_eq!(decode_manga_attributes(&doc(r#"{"title": {}, "tags": {}}"#)), None);
    assert_eq!(decode_manga_attributes(&doc(r#"{"title": {}, "tags": [{}]}"#)), None);
    assert_eq!(decode_manga_attributes(&doc(r#"{"title": {}, "updatedAt": false}"#)), None);
    assert_eq!(decode_manga_attributes(&doc("[]")), None);
}

#[test]
fn manga_attributes_take_null_for_missing() {
    let a = decode_manga_attributes(&doc(r#"{"title": {}, "status": null, "year": null}"#)).unwrap();
    assert_eq!(a.status, None);
    assert_eq!(a.year, None);
    let a = decode_manga_attributes(&doc(r#"{"title": {}, "year": -2147483648}"#)).unwrap();
    assert_eq!(a.year, Some(i32::MIN));
}

#[test]
fn manga_needs_id_attributes_and_relationships() {
    assert_eq!(decode_manga(&doc(r#"{"attributes": {"title": {}}, "relationships": []}"#)), None);
    assert_eq!(decode_manga(&doc(r#"{"id": "m", "relationships": []}"#)), None);
    assert_eq!(decode_manga(&doc(r#"{"id": "m", "attributes": {"title": {}}}"#)), None);
    assert!(decode_manga(&doc(r#"{"id": "m", "attributes": {"title": {}}, "relationships": []}"#)).is_some());
}

#[test]
fn manga_list_counts_a_missing_total_as_zero() {
    let list = decode_manga_list(&doc(r#"{"result": "ok", "data": []}"#)).unwrap();
    assert_eq!(list.result, "ok");
    assert_eq!(list.total, 0);
    assert_eq!(list.data, vec![]);
    let list = decode_manga_list(&doc(r#"{"result": "ok", "data": [], "total": 30, "limit": 25}"#)).unwrap();
    assert_eq!(list.total, 30);
}

#[test]
fn manga_list_that_is_malformed() {
    assert_eq!(decode_manga_list(&doc(r#"{"data": []}"#)), None);
    assert_eq!(decode_manga_list(&doc(r#"{"result": "ok"}"#)), None);
    assert_eq!(decode_manga_list(&doc(r#"{"result": "ok", "data": {}}"#)), None);
    assert_eq!(decode_manga_list(&doc(r#"{"result": "ok", "data": [], "total": null}"#)), None);
    assert_eq!(decode_manga_list(&doc(r#"{"result": "ok", "data": [], "total": "3"}"#)), None);
    assert_eq!(decode_manga_list(&doc(r#"{"result": "ok", "data": [{}]}"#)), None);
    assert_eq!(decode_manga_list(&doc(r#"{"result": "error", "errors": []}"#)), None);
    assert_eq!(decode_manga_list(&doc(r#"["ok", [], 0]"#)), None);
}

#[test]
fn manga_response_holds_one_series() {
    let text = format!(r#"{{"result": "ok", "response": "entity", "data": {}}}"#, MANGA);
    let response = decode_manga_response(&doc(&text)).unwrap();
    assert_eq!(response.result, "ok");
    assert_eq!(response.data.id, "m1");
    assert_eq!(decode_manga_response(&doc(r#"{"result": "ok", "data": []}"#)), None);
    assert_eq!(decode_manga_response(&doc(r#"{"result": "ok"}"#)), None);
}

#[test]
fn chapter_attributes_may_all_be_missing() {
    assert_eq!(
        decode_chapter_attributes(&doc("{}")),
        Some(ChapterAttributes {
            chapter: None,
            title: None,
            volume: None,
            translated_language: None,
            publish_at: None,
            pages: None,
            external_url: None,
        })
    );
    assert_eq!(decode_chapter_attributes(&doc("[]")), None);
    assert_eq!(decode_chapter_attributes(&doc("null")), None);
    assert_eq!(decode_chapter_attributes(&doc("3")), None);
    assert_eq!(decode_chapter_attributes(&doc(r#"{"pages": "12"}"#)), None);
    assert_eq!(decode_chapter_attributes(&doc(r#"{"chapter": 12}"#)), None);
}

#[test]
fn chapter_is_read_in_full() {
    let chapter = decode_chapter(&doc(
        r#"{"id": "c1", "attributes": {"chapter": "12.5", "title": "T", "volume": "2",
            "translatedLanguage": "en", "publishAt": "2024-02-02", "pages": 18, "externalUrl": null},
            "relationships": [{"id": "g", "type": "scanlation_group", "attributes": {"name": "G"}}]}"#,
    ));
    assert_eq!(
        chapter,
        Some(ChapterData {
            id: "c1".to_string(),
            attributes: ChapterAttributes {
                chapter: Some("12.5".to_string()),
                title: Some("T".to_string()),
                volume: Some("2".to_string()),
                translated_language: Some("en".to_string()),
                publish_at: Some("2024-02-02".to_string()),
                pages: Some(18),
                external_url: None,
            },
            relationships: vec![Relationship {
                id: "g".to_string(),
                rel_type: "scanlation_group".to_string(),
                attributes: Some(RelationshipAttributes { file_name: None, name: Some("G".to_string()) }),
            }],
        })
    );
    assert_eq!(decode_chapter(&doc(r#"{"id": "c1", "attributes": {}}"#)), None);
}

#[test]
fn chapter_feed_page() {
    let page = decode_chapter_feed(&doc(r#"{"result": "ok", "data": [], "total": 0}"#)).unwrap();
    assert_eq!(page.result, "ok");
    assert_eq!(page.data, vec![]);
    assert_eq!(decode_chapter_feed(&doc(r#"{"result": "ok"}"#)), None);
    assert_eq!(decode_chapter_feed(&doc(r#"{"result": "ok", "data": [{"id": "c"}]}"#)), None);
}

#[test]
fn at_home_handshake() {
    assert_eq!(
        decode_at_home(&doc(
            r#"{"result": "ok", "baseUrl": "https://node", "chapter": {"hash": "h", "data": ["1.png"], "dataSaver": []}}"#
        )),
        Some(AtHomeResponse {
            result: "ok".to_string(),
            base_url: "https://node".to_string(),
            chapter: AtHomeChapter { hash: "h".to_string(), data: vec!["1.png".to_string()] },
        })
    );
    assert_eq!(decode_at_home(&doc(r#"{"result": "ok", "baseUrl": "u"}"#)), None);
    assert_eq!(decode_at_home(&doc(r#"{"result": "ok", "chapter": {"hash": "h", "data": []}}"#)), None);
    assert_eq!(decode_at_home(&doc(r#"{"result": "ok", "baseUrl": "u", "chapter": {"hash": "h"}}"#)), None);
    assert_eq!(decode_at_home(&doc(r#"{"result": "ok", "baseUrl": "u", "chapter": {"data": []}}"#)), None);
    assert_eq!(decode_at_home(&doc(r#"{"result": "ok", "base_url": "u", "chapter": {"hash": "h", "data": []}}"#)), None);
}
