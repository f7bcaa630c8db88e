//! The operations of the adapter: what it says of itself, and what it makes
//! of the catalog's answers to a search, to a request for one series and to
//! the handshake for a chapter's pages.
//!
//! The adapter fetches nothing itself. Its host fetches the address that the
//! functions of `urls` build and hands the answer's text in. An answer that
//! could not be fetched, that is no JSON, that has not the shape of the
//! expected record or whose `result` is not `ok` gives the operation's
//! fallback.

use vstd::prelude::*;
use vstd::string::*;
use crate::catalog::{
    AtHomeModel, AtHomeResponse, MangaData, MangaListModel, MangaListResponse, MangaModel,
    MangaResponse, MangaResponseModel,
};
use crate::decode::{
    at_home_of, decode_at_home, decode_manga_list, decode_manga_response, manga_list_of,
    manga_response_of,
};
use crate::extract::{
    alternate_titles, cover_url_of, credited_names, extract_alternate_titles, extract_authors,
    extract_cover_url, extract_tags, extract_title, find_text,
    lemma_alternate_titles_are_distinct, map_status, resolved_text, status_label, tag_names,
};
use crate::json::{json_document, lookup, parse_json, Json, JsonValue};
use crate::records::{
    ErrorPayload, PageModel, PageResult, SearchModel, SearchResult, SeriesDetail,
    SeriesDetailModel, SeriesExtra, SeriesExtraModel, SeriesModel, SeriesResult, SourceInfo,
    SourceInfoModel,
};
use crate::text::{copy_text, same_text};
use crate::urls::{
    page_url, page_url_text, search_offset, series_page_text, series_page_url, BASE_URL,
    SEARCH_PAGE_SIZE,
};

verus! {

/// The language in which titles, tag names and descriptions are shown.
pub const DISPLAY_LANGUAGE: &'static str = "en";

/// The referer that a request for a page image has to carry.
pub const PAGE_REFERER: &'static str = "https://mangadex.org/";

/// The message of the record that stands for a series that could not be had.
pub const DETAIL_FAILURE: &'static str = "Failed to fetch manga";

/// What the adapter says of itself.
pub open spec fn source_info() -> SourceInfoModel {
    SourceInfoModel {
        id: "mangadex-wasm"@,
        name: "MangaDex (WASM)"@,
        base_url: BASE_URL@,
        language: "en"@,
        supported_languages: seq![
            "en"@,
            "ja"@,
            "ko"@,
            "zh"@,
            "es"@,
            "fr"@,
            "de"@,
            "it"@,
            "pt-br"@,
            "ru"@,
        ],
        requires_authentication: false,
        capability_level: "http_only"@,
    }
}

/// Describes the adapter: its id and name, the catalog's address, the
/// languages it knows, and what it needs of its host.
pub fn get_source_info() -> (r: SourceInfo)
    ensures
        r.deep_view() == source_info(),
{
    let mut languages: Vec<String> = Vec::new();
    languages.push(String::from_str("en"));
    languages.push(String::from_str("ja"));
    languages.push(String::from_str("ko"));
    languages.push(String::from_str("zh"));
    languages.push(String::from_str("es"));
    languages.push(String::from_str("fr"));
    languages.push(String::from_str("de"));
    languages.push(String::from_str("it"));
    languages.push(String::from_str("pt-br"));
    languages.push(String::from_str("ru"));
    assert(languages.deep_view() =~= source_info().supported_languages);
    SourceInfo {
        id: String::from_str("mangadex-wasm"),
        name: String::from_str("MangaDex (WASM)"),
        base_url: String::from_str(BASE_URL),
        language: String::from_str("en"),
        supported_languages: languages,
        requires_authentication: false,
        capability_level: String::from_str("http_only"),
    }
}

/// The record that a search shows of a series.
pub open spec fn series_summary(m: MangaModel) -> SeriesModel {
    let title = resolved_text(m.attributes.title, DISPLAY_LANGUAGE@);
    SeriesModel {
        id: m.id,
        title: title,
        url: series_page_text(m.id),
        cover_url: cover_url_of(m.id, m.relationships),
        alternate_titles: alternate_titles(m.attributes.alt_titles, title),
        authors: credited_names(m.relationships),
        artists: Seq::empty(),
        status: status_label(m.attributes.status),
        genres: tag_names(m.attributes.tags, DISPLAY_LANGUAGE@),
        tags: Seq::empty(),
        description: lookup(m.attributes.description, DISPLAY_LANGUAGE@),
    }
}

fn empty_list() -> (r: Vec<String>)
    ensures
        r.deep_view() == Seq::<Seq<char>>::empty(),
{
    let r: Vec<String> = Vec::new();
    assert(r.deep_view() =~= Seq::<Seq<char>>::empty());
    r
}

fn description_of(manga: &MangaData) -> (r: Option<String>)
    ensures
        r.deep_view() == lookup(manga.attributes.description.deep_view(), DISPLAY_LANGUAGE@),
{
    match find_text(&manga.attributes.description, DISPLAY_LANGUAGE) {
        Some(s) => Some(s.clone()),
        None => None,
    }
}

fn status_of(manga: &MangaData) -> (r: String)
    ensures
        r@ == status_label(manga.attributes.status.deep_view()),
{
    match &manga.attributes.status {
        Some(s) => map_status(Some(s.as_str())),
        None => map_status(None),
    }
}

/// Makes the record that a search shows of a series.
pub fn summarize_series(manga: &MangaData) -> (r: SeriesResult)
    ensures
        r.deep_view() == series_summary(manga.deep_view()),
{
    let title = extract_title(&manga.attributes.title, DISPLAY_LANGUAGE);
    let alternate_titles = extract_alternate_titles(&manga.attributes.alt_titles, title.as_str());
    SeriesResult {
        id: manga.id.clone(),
        title: title,
        url: series_page_url(manga.id.as_str()),
        cover_url: extract_cover_url(manga.id.as_str(), &manga.relationships),
        alternate_titles: alternate_titles,
        authors: extract_authors(&manga.relationships),
        artists: empty_list(),
        status: status_of(manga),
        genres: extract_tags(&manga.attributes.tags, DISPLAY_LANGUAGE),
        tags: empty_list(),
        description: description_of(manga),
    }
}

/// The full record of a series.
pub open spec fn series_detail(m: MangaModel) -> SeriesDetailModel {
    let title = resolved_text(m.attributes.title, DISPLAY_LANGUAGE@);
    SeriesDetailModel {
        id: m.id,
        title: title,
        alternate_titles: alternate_titles(m.attributes.alt_titles, title),
        description: lookup(m.attributes.description, DISPLAY_LANGUAGE@),
        cover_url: cover_url_of(m.id, m.relationships),
        authors: credited_names(m.relationships),
        artists: Seq::empty(),
        status: status_label(m.attributes.status),
        genres: tag_names(m.attributes.tags, DISPLAY_LANGUAGE@),
        tags: Seq::empty(),
        year: m.attributes.year,
        content_rating: m.attributes.content_rating,
        url: series_page_text(m.id),
        extra: SeriesExtraModel {
            original_language: m.attributes.original_language,
            last_chapter: m.attributes.last_chapter,
            last_volume: m.attributes.last_volume,
            demographic: m.attributes.publication_demographic,
        },
    }
}

/// Makes the full record of a series.
pub fn detail_series(manga: &MangaData) -> (r: SeriesDetail)
    ensures
        r.deep_view() == series_detail(manga.deep_view()),
{
    let title = extract_title(&manga.attributes.title, DISPLAY_LANGUAGE);
    let alternate_titles = extract_alternate_titles(&manga.attributes.alt_titles, title.as_str());
    SeriesDetail {
        id: manga.id.clone(),
        title: title,
        alternate_titles: alternate_titles,
        description: description_of(manga),
        cover_url: extract_cover_url(manga.id.as_str(), &manga.relationships),
        authors: extract_authors(&manga.relationships),
        artists: empty_list(),
        status: status_of(manga),
        genres: extract_tags(&manga.attributes.tags, DISPLAY_LANGUAGE),
        tags: empty_list(),
        year: manga.attributes.year,
        content_rating: copy_text(&manga.attributes.content_rating),
        url: series_page_url(manga.id.as_str()),
        extra: SeriesExtra {
            original_language: copy_text(&manga.attributes.original_language),
            last_chapter: copy_text(&manga.attributes.last_chapter),
            last_volume: copy_text(&manga.attributes.last_volume),
            demographic: copy_text(&manga.attributes.publication_demographic),
        },
    }
}

/// What a search gives where nothing was found or the answer was no good.
pub open spec fn empty_search() -> SearchModel {
    SearchModel { series: Seq::empty(), has_more: false, total: 0 }
}

/// Whether the catalog holds more series past the page `page` of a search
/// over `total` series in all.
pub open spec fn has_more(page: int, total: int) -> bool {
    search_offset(page) + SEARCH_PAGE_SIZE < total
}

/// What a search gives for one page of the catalog's list.
pub open spec fn search_page(list: MangaListModel, page: int) -> SearchModel {
    if list.result == "ok"@ {
        SearchModel {
            series: Seq::new(list.data.len(), |i: int| series_summary(list.data[i])),
            has_more: has_more(page, list.total as int),
            total: list.total,
        }
    } else {
        empty_search()
    }
}

/// What a search gives for an answer read as JSON, `None` standing for an
/// answer that is no JSON.
pub open spec fn search_of(doc: Option<JsonValue>, page: int) -> SearchModel {
    match doc {
        Some(j) => match manga_list_of(j) {
            Some(list) => search_page(list, page),
            None => empty_search(),
        },
        None => empty_search(),
    }
}

fn no_series() -> (r: SearchResult)
    ensures
        r.deep_view() == empty_search(),
{
    let series: Vec<SeriesResult> = Vec::new();
    assert(series.deep_view() =~= Seq::<SeriesModel>::empty());
    SearchResult { series, has_more: false, total: 0 }
}

/// Makes the result of a search from one page of the catalog's list.
pub fn search_from_list(list: &MangaListResponse, page: i32) -> (r: SearchResult)
    ensures
        r.deep_view() == search_page(list.deep_view(), page as int),
{
    if !same_text(list.result.as_str(), "ok") {
        return no_series();
    }
    let ghost all = list.data.deep_view();
    let mut series: Vec<SeriesResult> = Vec::new();
    let mut i: usize = 0;
    while i < list.data.len()
        invariant
            i <= list.data@.len(),
            all == list.data.deep_view(),
            series@.len() == i,
            forall|k: int| 0 <= k < i ==> (#[trigger] series@[k]).deep_view() == series_summary(all[k]),
        decreases list.data@.len() - i,
    {
        series.push(summarize_series(&list.data[i]));
        i += 1;
    }
    assert(series.deep_view() =~= Seq::new(all.len(), |i: int| series_summary(all[i])));
    let offset: i64 = (page as i64 - 1) * SEARCH_PAGE_SIZE;
    SearchResult {
        series,
        has_more: offset + SEARCH_PAGE_SIZE < list.total as i64,
        total: list.total,
    }
}

/// Makes the result of a search from an answer read as JSON.
pub fn search_from_document(doc: Option<&Json>, page: i32) -> (r: SearchResult)
    ensures
        r.deep_view() == search_of(doc.deep_view(), page as int),
{
    match doc {
        Some(j) => match decode_manga_list(j) {
            Some(list) => search_from_list(&list, page),
            None => no_series(),
        },
        None => no_series(),
    }
}

/// Makes the result of a search for the page `page` from the text of the
/// catalog's answer.
pub fn search_series(response_text: &str, page: i32) -> (r: SearchResult)
    ensures
        r.deep_view() == search_of(json_document(response_text@), page as int),
{
    let doc = parse_json(response_text);
    search_from_document(doc.as_ref(), page)
}

/// What a request for one series gives for the catalog's record.
pub open spec fn detail_page(response: MangaResponseModel) -> Result<SeriesDetailModel, Seq<char>> {
    if response.result == "ok"@ {
        Ok(series_detail(response.data))
    } else {
        Err(DETAIL_FAILURE@)
    }
}

/// What a request for one series gives for an answer read as JSON, `None`
/// standing for an answer that is no JSON.
pub open spec fn detail_of(doc: Option<JsonValue>) -> Result<SeriesDetailModel, Seq<char>> {
    match doc {
        Some(j) => match manga_response_of(j) {
            Some(response) => detail_page(response),
            None => Err(DETAIL_FAILURE@),
        },
        None => Err(DETAIL_FAILURE@),
    }
}

/// Whether a result of a request for one series holds what `expected` says.
pub open spec fn detail_is(
    r: Result<SeriesDetail, ErrorPayload>,
    expected: Result<SeriesDetailModel, Seq<char>>,
) -> bool {
    match r {
        Ok(detail) => expected == Ok::<SeriesDetailModel, Seq<char>>(detail.deep_view()),
        Err(e) => expected == Err::<SeriesDetailModel, Seq<char>>(e.error@),
    }
}

fn no_detail() -> (r: Result<SeriesDetail, ErrorPayload>)
    ensures
        detail_is(r, Err(DETAIL_FAILURE@)),
{
    Err(ErrorPayload { error: String::from_str(DETAIL_FAILURE) })
}

/// Makes the full record of a series from the catalog's record.
pub fn detail_from_response(response: &MangaResponse) -> (r: Result<SeriesDetail, ErrorPayload>)
    ensures
        detail_is(r, detail_page(response.deep_view())),
{
    if same_text(response.result.as_str(), "ok") {
        Ok(detail_series(&response.data))
    } else {
        no_detail()
    }
}

/// Makes the full record of a series from an answer read as JSON.
pub fn detail_from_document(doc: Option<&Json>) -> (r: Result<SeriesDetail, ErrorPayload>)
    ensures
        detail_is(r, detail_of(doc.deep_view())),
{
    match doc {
        Some(j) => match decode_manga_response(j) {
            Some(response) => detail_from_response(&response),
            None => no_detail(),
        },
        None => no_detail(),
    }
}

/// Makes the full record of a series from the text of the catalog's answer;
/// where the answer is no good, a record that holds an error message alone.
pub fn get_series_detail(response_text: &str) -> (r: Result<SeriesDetail, ErrorPayload>)
    ensures
        detail_is(r, detail_of(json_document(response_text@))),
{
    let doc = parse_json(response_text);
    detail_from_document(doc.as_ref())
}

/// The record of the page image at the place `index` of a chapter.
pub open spec fn page_entry(delivery: AtHomeModel, index: int) -> PageModel {
    PageModel {
        index: index,
        url: page_url_text(delivery.base_url, delivery.chapter.hash, delivery.chapter.data[index]),
        headers: Seq::empty(),
        referer: PAGE_REFERER@,
    }
}

/// The page images that a handshake gives: one for each file, in order.
pub open spec fn page_list(delivery: AtHomeModel) -> Seq<PageModel> {
    if delivery.result == "ok"@ {
        Seq::new(delivery.chapter.data.len(), |i: int| page_entry(delivery, i))
    } else {
        Seq::empty()
    }
}

/// The page images for an answer read as JSON, `None` standing for an answer
/// that is no JSON.
pub open spec fn pages_of(doc: Option<JsonValue>) -> Seq<PageModel> {
    match doc {
        Some(j) => match at_home_of(j) {
            Some(delivery) => page_list(delivery),
            None => Seq::empty(),
        },
        None => Seq::empty(),
    }
}

fn no_pages() -> (r: Vec<PageResult>)
    ensures
        r.deep_view() == Seq::<PageModel>::empty(),
{
    let r: Vec<PageResult> = Vec::new();
    assert(r.deep_view() =~= Seq::<PageModel>::empty());
    r
}

/// Lists the page images that a handshake gives.
pub fn pages_from_handshake(delivery: &AtHomeResponse) -> (r: Vec<PageResult>)
    ensures
        r.deep_view() == page_list(delivery.deep_view()),
{
    if !same_text(delivery.result.as_str(), "ok") {
        return no_pages();
    }
    let ghost model = delivery.deep_view();
    let mut pages: Vec<PageResult> = Vec::new();
    let mut i: usize = 0;
    while i < delivery.chapter.data.len()
        invariant
            i <= delivery.chapter.data@.len(),
            model == delivery.deep_view(),
            pages@.len() == i,
            forall|k: int| 0 <= k < i ==> (#[trigger] pages@[k]).deep_view() == page_entry(model, k),
        decreases delivery.chapter.data@.len() - i,
    {
        let headers: Vec<(String, String)> = Vec::new();
        assert(headers.deep_view() =~= Seq::empty());
        pages.push(
            PageResult {
                index: i,
                url: page_url(
                    delivery.base_url.as_str(),
                    delivery.chapter.hash.as_str(),
                    delivery.chapter.data[i].as_str(),
                ),
                headers: headers,
                referer: String::from_str(PAGE_REFERER),
            },
        );
        i += 1;
    }
    assert(pages.deep_view() =~= page_list(model));
    pages
}

/// Lists the page images from an answer read as JSON.
pub fn pages_from_document(doc: Option<&Json>) -> (r: Vec<PageResult>)
    ensures
        r.deep_view() == pages_of(doc.deep_view()),
{
    match doc {
        Some(j) => match decode_at_home(j) {
            Some(delivery) => pages_from_handshake(&delivery),
            None => no_pages(),
        },
        None => no_pages(),
    }
}

/// Lists the page images of a chapter from the text of the answer to the
/// handshake; where the answer is no good, the list is empty.
pub fn get_chapter_pages(response_text: &str) -> (r: Vec<PageResult>)
    ensures
        r.deep_view() == pages_of(json_document(response_text@)),
{
    let doc = parse_json(response_text);
    pages_from_document(doc.as_ref())
}

/// The records of a series carry the id that the catalog gave it, and their
/// address is made of that id.
pub proof fn lemma_series_keep_their_id(m: MangaModel)
    ensures
        series_summary(m).id == m.id,
        series_detail(m).id == m.id,
        series_summary(m).url == series_page_text(m.id),
        series_detail(m).url == series_page_text(m.id),
{
}

/// The records of a series never list its title among its alternate titles,
/// nor an alternate title twice.
pub proof fn lemma_alternate_titles_exclude_title(m: MangaModel)
    ensures
        !series_summary(m).alternate_titles.contains(series_summary(m).title),
        series_summary(m).alternate_titles.no_duplicates(),
        !series_detail(m).alternate_titles.contains(series_detail(m).title),
        series_detail(m).alternate_titles.no_duplicates(),
{
    lemma_alternate_titles_are_distinct(
        m.attributes.alt_titles,
        resolved_text(m.attributes.title, DISPLAY_LANGUAGE@),
    );
}

/// There is more to a search past a page exactly where the pages up to it
/// hold fewer series than the catalog has in all. So there is never more
/// where the catalog has none.
pub proof fn lemma_has_more(page: int, total: int)
    ensures
        has_more(page, total) <==> page * 25 < total,
        page >= 1 && total <= 0 ==> !has_more(page, total),
{
}

/// A search over a list of no series in all shows nothing more to come.
pub proof fn lemma_search_of_nothing_has_no_more(list: MangaListModel, page: int)
    requires
        page >= 1,
        list.total == 0,
    ensures
        !search_page(list, page).has_more,
{
}

/// An answer that is no JSON, or has not the shape of the expected record,
/// or whose `result` is not `ok`, gives each operation's fallback: a search
/// an empty page, a request for one series the error record, a handshake no
/// pages.
pub proof fn lemma_bad_answer_gives_fallback(doc: Option<JsonValue>, page: int)
    ensures
        doc is None ==> search_of(doc, page) == empty_search(),
        doc is None ==> detail_of(doc) == Err::<SeriesDetailModel, Seq<char>>(DETAIL_FAILURE@),
        doc is None ==> pages_of(doc) == Seq::<PageModel>::empty(),
        doc matches Some(j) && (manga_list_of(j) matches Some(list) ==> list.result != "ok"@)
            ==> search_of(doc, page) == empty_search(),
        doc matches Some(j) && (manga_response_of(j) matches Some(response) ==> response.result
            != "ok"@) ==> detail_of(doc) == Err::<SeriesDetailModel, Seq<char>>(DETAIL_FAILURE@),
        doc matches Some(j) && (at_home_of(j) matches Some(delivery) ==> delivery.result != "ok"@)
            ==> pages_of(doc) == Seq::<PageModel>::empty(),
{
}

} // verus!
