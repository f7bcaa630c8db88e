use mangadex_wasm::adapter::{
    detail_from_document, get_chapter_pages, get_series_detail, get_source_info,
    pages_from_document, search_from_document, search_series, DETAIL_FAILURE, DISPLAY_LANGUAGE,
    PAGE_REFERER,
};
use mangadex_wasm::json::Json;
use mangadex_wasm::records::{
    ErrorPayload, PageResult, SearchResult, SeriesDetail, SeriesExtra, SeriesResult,
};

const MANGA: &str = r#"{
    "id": "m1",
    "attributes": {
        "title": {"ja": "ワンピース", "en": "One Piece"},
        "altTitles": [{"ja": "ワンピース"}, {"en": "One Piece"}, {"fr": "Une Pièce"}, {"ja-ro": "Wan Pīsu", "ko": "ワンピース"}],
        "description": {"en": "Pirates", "fr": "Des pirates"},
        "status": "ongoing",
        "year": 1997,
        "contentRating": "safe",
        "tags": [
            {"attributes": {"name": {"en": "Action"}}},
            {"attributes": {"name": {}}},
            {"attributes": {"name": {"ja": "冒険"}}}
        ],
        "originalLanguage": "ja",
        "lastChapter": "1100",
        "lastVolume": null,
        "publicationDemographic": "shounen"
    },
    "relationships": [
        {"id": "a1", "type": "author", "attributes": {"name": "Oda"}},
        {"id": "a1", "type": "artist", "attributes": {"name": "Oda"}},
        {"id": "c1", "type": "cover_art", "attributes": {"fileName": "cover.jpg"}}
    ]
}"#;

fn summary() -> SeriesResult {
    SeriesResult {
        id: "m1".to_string(),
        title: "One Piece".to_string(),
        url: "https://mangadex.org/title/m1".to_string(),
        cover_url: Some("https://uploads.mangadex.org/covers/m1/cover.jpg".to_string()),
        alternate_titles: vec!["ワンピース".to_string(), "Une Pièce".to_string(), "Wan Pīsu".to_string()],
        authors: vec!["Oda".to_string()],
        artists: vec![],
        status: "Ongoing".to_string(),
        genres: vec!["Action".to_string(), "冒険".to_string()],
        tags: vec![],
        description: Some("Pirates".to_string()),
    }
}

fn empty_search() -> SearchResult {
    SearchResult { series: vec![], has_more: false, total: 0 }
}

fn failure() -> Result<SeriesDetail, ErrorPayload> {
    Err(ErrorPayload { error: "Failed to fetch manga".to_string() })
}

fn list(total: i32) -> String {
    format!(r#"{{"result": "ok", "data": [], "total": {}}}"#, total)
}

#[test]
fn adapter_constants() {
    assert_eq!(DISPLAY_LANGUAGE, "en");
    assert_eq!(PAGE_REFERER, "https://mangadex.org/");
    assert_eq!(DETAIL_FAILURE, "Failed to fetch manga");
}

#[test]
fn source_info_is_fixed() {
    let info = get_source_info();
    assert_eq!(info.id, "mangadex-wasm");
    assert_eq!(info.name, "MangaDex (WASM)");
    assert_eq!(info.base_url, "https://api.mangadex.org");
    assert_eq!(info.language, "en");
    assert_eq!(
        info.supported_languages,
        vec!["en", "ja", "ko", "zh", "es", "fr", "de", "it", "pt-br", "ru"]
    );
    assert!(!info.requires_authentication);
    assert_eq!(info.capability_level, "http_only");
    assert_eq!(info, get_source_info());
}

#[test]
fn search_maps_each_series() {
    let text = format!(r#"{{"result": "ok", "response": "collection", "data": [{}], "limit": 25, "offset": 0, "total": 1}}"#, MANGA);
    assert_eq!(
        search_series(&text, 1),
        SearchResult { series: vec![summary()], has_more: false, total: 1 }
    );
}

#[test]
fn search_keeps_the_order_of_the_list() {
    let second = MANGA.replace("\"m1\"", "\"m2\"");
    let text = format!(r#"{{"result": "ok", "data": [{}, {}], "total": 2}}"#, MANGA, second);
    let got = search_series(&text, 1);
    assert_eq!(got.series.len(), 2);
    assert_eq!(got.series[0].id, "m1");
    assert_eq!(got.series[1].id, "m2");
    assert_eq!(got.series[1].url, "https://mangadex.org/title/m2");
    assert_eq!(
        got.series[1].cover_url,
        Some("https://uploads.mangadex.org/covers/m2/cover.jpg".to_string())
    );
}

#[test]
fn search_with_a_total_of_zero_has_no_more() {
    assert_eq!(search_series(&list(0), 1), empty_search());
    assert!(!search_series(&list(0), 2).has_more);
    assert!(!search_series(&list(0), 1000).has_more);
}

#[test]
fn search_with_a_total_of_30_has_more_after_the_first_page() {
    let got = search_series(&list(30), 1);
    assert!(got.has_more);
    assert_eq!(got.total, 30);
}

#[test]
fn search_on_the_second_page_has_no_more_up_to_a_total_of_50() {
    assert!(!search_series(&list(30), 2).has_more);
    assert!(!search_series(&list(50), 2).has_more);
    assert!(search_series(&list(51), 2).has_more);
    assert!(!search_series(&list(25), 1).has_more);
    assert!(search_series(&list(26), 1).has_more);
}

#[test]
fn search_has_more_at_the_limits_of_the_page_number() {
    assert!(!search_series(&list(i32::MAX), i32::MAX).has_more);
    assert!(search_series(&list(i32::MAX), 85899345).has_more);
    assert!(!search_series(&list(i32::MAX), 85899346).has_more);
    assert!(search_series(&list(i32::MIN), i32::MIN).has_more);
}

#[test]
fn search_falls_back_on_a_bad_answer() {
    assert_eq!(search_series("", 1), empty_search());
    assert_eq!(search_series("not json", 1), empty_search());
    assert_eq!(search_series("{\"result\": \"ok\", \"data\": [", 1), empty_search());
    assert_eq!(search_series("null", 1), empty_search());
    assert_eq!(search_series("[]", 1), empty_search());
    assert_eq!(search_series(r#"{"result": "ok"}"#, 1), empty_search());
    assert_eq!(search_series(r#"{"result": "ok", "data": [{"id": "m"}], "total": 1}"#, 1), empty_search());
    assert_eq!(search_series(r#"{"result": "ok", "data": [], "total": 1.5}"#, 1), empty_search());
}

#[test]
fn search_falls_back_where_the_result_is_not_ok() {
    assert_eq!(search_series(r#"{"result": "error", "data": [], "total": 30}"#, 1), empty_search());
    let text = format!(r#"{{"result": "ko", "data": [{}], "total": 100}}"#, MANGA);
    assert_eq!(search_series(&text, 1), empty_search());
    assert_eq!(search_series(r#"{"result": "OK", "data": [], "total": 30}"#, 1), empty_search());
}

#[test]
fn search_from_a_document_made_by_hand() {
    let doc = Json::Object(vec![
        ("result".to_string(), Json::Text("ok".to_string())),
        ("data".to_string(), Json::Array(vec![])),
        ("total".to_string(), Json::Number(Some(26))),
    ]);
    assert_eq!(
        search_from_document(Some(&doc), 1),
        SearchResult { series: vec![], has_more: true, total: 26 }
    );
    assert_eq!(search_from_document(None, 1), empty_search());
    assert_eq!(search_from_document(Some(&Json::Null), 1), empty_search());
}

#[test]
fn detail_maps_the_series() {
    let text = format!(r#"{{"result": "ok", "response": "entity", "data": {}}}"#, MANGA);
    let expected = SeriesDetail {
        id: "m1".to_string(),
        title: "One Piece".to_string(),
        alternate_titles: vec!["ワンピース".to_string(), "Une Pièce".to_string(), "Wan Pīsu".to_string()],
        description: Some("Pirates".to_string()),
        cover_url: Some("https://uploads.mangadex.org/covers/m1/cover.jpg".to_string()),
        authors: vec!["Oda".to_string()],
        artists: vec![],
        status: "Ongoing".to_string(),
        genres: vec!["Action".to_string(), "冒険".to_string()],
        tags: vec![],
        year: Some(1997),
        content_rating: Some("safe".to_string()),
        url: "https://mangadex.org/title/m1".to_string(),
        extra: SeriesExtra {
            original_language: Some("ja".to_string()),
            last_chapter: Some("1100".to_string()),
            last_volume: None,
            demographic: Some("shounen".to_string()),
        },
    };
    assert_eq!(get_series_detail(&text), Ok(expected));
}

#[test]
fn detail_of_a_series_with_the_least() {
    let text = r#"{"result": "ok", "data": {"id": "m9", "attributes": {"title": {"ko": "제목"}}, "relationships": []}}"#;
    let detail = get_series_detail(text).unwrap();
    assert_eq!(detail.id, "m9");
    assert_eq!(detail.title, "제목");
    assert_eq!(detail.alternate_titles, Vec::<String>::new());
    assert_eq!(detail.description, None);
    assert_eq!(detail.cover_url, None);
    assert_eq!(detail.authors, Vec::<String>::new());
    assert_eq!(detail.status, "Unknown");
    assert_eq!(detail.genres, Vec::<String>::new());
    assert_eq!(detail.year, None);
    assert_eq!(detail.content_rating, None);
    assert_eq!(detail.url, "https://mangadex.org/title/m9");
    assert_eq!(
        detail.extra,
        SeriesExtra { original_language: None, last_chapter: None, last_volume: None, demographic: None }
    );
}

#[test]
fn detail_falls_back_to_the_error_record() {
    assert_eq!(get_series_detail(""), failure());
    assert_eq!(get_series_detail("{"), failure());
    assert_eq!(get_series_detail("[]"), failure());
    assert_eq!(get_series_detail(r#"{"result": "ok"}"#), failure());
    assert_eq!(get_series_detail(r#"{"result": "ok", "data": {"id": "m1"}}"#), failure());
    assert_eq!(get_series_detail(r#"{"result": "error", "errors": [{"status": 404}]}"#), failure());
    let text = format!(r#"{{"result": "error", "data": {}}}"#, MANGA);
    assert_eq!(get_series_detail(&text), failure());
    assert_eq!(detail_from_document(None), failure());
    assert_eq!(detail_from_document(Some(&Json::Array(vec![]))), failure());
}

#[test]
fn pages_are_listed_in_order() {
    let text = r#"{"result": "ok", "baseUrl": "https://node.example", "chapter": {"hash": "abc", "data": ["1-a.png", "2-b.png", "3-c.jpg"], "dataSaver": ["x"]}}"#;
    let page = |index: usize, file: &str| PageResult {
        index,
        url: format!("https://node.example/data/abc/{}", file),
        headers: vec![],
        referer: "https://mangadex.org/".to_string(),
    };
    assert_eq!(
        get_chapter_pages(text),
        vec![page(0, "1-a.png"), page(1, "2-b.png"), page(2, "3-c.jpg")]
    );
}

#[test]
fn pages_fall_back_to_an_empty_list() {
    assert_eq!(get_chapter_pages(""), vec![]);
    assert_eq!(get_chapter_pages("nonsense"), vec![]);
    assert_eq!(get_chapter_pages(r#"{"result": "ok"}"#), vec![]);
    assert_eq!(get_chapter_pages(r#"{"result": "ok", "baseUrl": "u", "chapter": {"hash": "h", "data": [1]}}"#), vec![]);
    assert_eq!(get_chapter_pages(r#"{"result": "error", "baseUrl": "u", "chapter": {"hash": "h", "data": ["1.png"]}}"#), vec![]);
    assert_eq!(get_chapter_pages(r#"{"result": "ok", "baseUrl": "u", "chapter": {"hash": "h", "data": []}}"#), vec![]);
    assert_eq!(pages_from_document(None), vec![]);
    assert_eq!(pages_from_document(Some(&Json::Null)), vec![]);
}
