//! The addresses of the catalog: where a request goes, and where a series or
//! a chapter can be read.

use vstd::prelude::*;
use vstd::string::*;
use crate::text::{chars_of, decimal, decimal_text, find, first_occurrence, occurs, text_of};
use crate::urlencoding::{encode, encoded};

verus! {

/// The root of the catalog's API.
pub const BASE_URL: &'static str = "https://api.mangadex.org";

/// The root under which cover images are served.
pub const COVERS_URL: &'static str = "https://uploads.mangadex.org/covers";

/// The number of series that one page of a search holds.
pub const SEARCH_PAGE_SIZE: i64 = 25;

/// The number of chapters that one page of a feed holds.
pub const FEED_PAGE_SIZE: u32 = 100;

/// The offset at which a chapter feed is read no further.
pub const FEED_CEILING: u32 = 10000;

/// The offset of a page of a search: pages count from one.
pub open spec fn search_offset(page: int) -> int {
    (page - 1) * 25
}

/// The address of a search for `query`, for the page `page`.
pub open spec fn search_url_text(query: Seq<char>, page: int) -> Seq<char> {
    BASE_URL@ + "/manga?title="@ + encoded(query) + "&limit=25&offset="@ + decimal_text(
        search_offset(page),
    ) + "&includes[]=cover_art&includes[]=author&includes[]=artist"@
}

/// The address of the full record of a series.
pub open spec fn detail_url_text(manga_id: Seq<char>) -> Seq<char> {
    BASE_URL@ + "/manga/"@ + manga_id
        + "?includes[]=cover_art&includes[]=author&includes[]=artist"@
}

/// The address of the page of a series' chapter feed that starts at `offset`:
/// chapters in English, the highest chapter number first.
pub open spec fn chapter_feed_url_text(series_id: Seq<char>, offset: int) -> Seq<char> {
    BASE_URL@ + "/manga/"@ + series_id + "/feed?limit=100&offset="@ + decimal_text(offset)
        + "&translatedLanguage[]=en&order[chapter]=desc&includes[]=scanlation_group"@
}

/// The address of the handshake for the pages of a chapter.
pub open spec fn at_home_url_text(chapter_id: Seq<char>) -> Seq<char> {
    BASE_URL@ + "/at-home/server/"@ + chapter_id
}

/// The address at which a series can be read.
pub open spec fn series_page_text(manga_id: Seq<char>) -> Seq<char> {
    "https://mangadex.org/title/"@ + manga_id
}

/// The address at which a chapter can be read.
pub open spec fn chapter_page_text(chapter_id: Seq<char>) -> Seq<char> {
    "https://mangadex.org/chapter/"@ + chapter_id
}

/// The address of a cover image.
pub open spec fn cover_url_text(manga_id: Seq<char>, file_name: Seq<char>) -> Seq<char> {
    COVERS_URL@ + "/"@ + manga_id + "/"@ + file_name
}

/// The address of one page image on a delivery node.
pub open spec fn page_url_text(base_url: Seq<char>, hash: Seq<char>, file_name: Seq<char>) -> Seq<
    char,
> {
    base_url + "/data/"@ + hash + "/"@ + file_name
}

/// Builds the address of a search.
pub fn search_url(query: &str, page: i32) -> (r: String)
    ensures
        r@ == search_url_text(query@, page as int),
{
    let offset: i64 = (page as i64 - 1) * SEARCH_PAGE_SIZE;
    let mut url = String::from_str(BASE_URL);
    url.append("/manga?title=");
    url.append(encode(query).as_str());
    url.append("&limit=25&offset=");
    url.append(decimal(offset).as_str());
    url.append("&includes[]=cover_art&includes[]=author&includes[]=artist");
    url
}

/// Builds the address of the full record of a series.
pub fn detail_url(manga_id: &str) -> (r: String)
    ensures
        r@ == detail_url_text(manga_id@),
{
    let mut url = String::from_str(BASE_URL);
    url.append("/manga/");
    url.append(manga_id);
    url.append("?includes[]=cover_art&includes[]=author&includes[]=artist");
    url
}

/// Builds the address of one page of a chapter feed.
pub fn chapter_feed_url(series_id: &str, offset: u32) -> (r: String)
    ensures
        r@ == chapter_feed_url_text(series_id@, offset as int),
{
    let mut url = String::from_str(BASE_URL);
    url.append("/manga/");
    url.append(series_id);
    url.append("/feed?limit=100&offset=");
    url.append(decimal(offset as i64).as_str());
    url.append("&translatedLanguage[]=en&order[chapter]=desc&includes[]=scanlation_group");
    url
}

/// Builds the address of the handshake for the pages of a chapter.
pub fn at_home_url(chapter_id: &str) -> (r: String)
    ensures
        r@ == at_home_url_text(chapter_id@),
{
    let mut url = String::from_str(BASE_URL);
    url.append("/at-home/server/");
    url.append(chapter_id);
    url
}

/// Builds the address at which a series can be read.
pub fn series_page_url(manga_id: &str) -> (r: String)
    ensures
        r@ == series_page_text(manga_id@),
{
    let mut url = String::from_str("https://mangadex.org/title/");
    url.append(manga_id);
    url
}

/// Builds the address at which a chapter can be read.
pub fn chapter_page_url(chapter_id: &str) -> (r: String)
    ensures
        r@ == chapter_page_text(chapter_id@),
{
    let mut url = String::from_str("https://mangadex.org/chapter/");
    url.append(chapter_id);
    url
}

/// Builds the address of a cover image.
pub fn cover_url(manga_id: &str, file_name: &str) -> (r: String)
    ensures
        r@ == cover_url_text(manga_id@, file_name@),
{
    let mut url = String::from_str(COVERS_URL);
    url.append("/");
    url.append(manga_id);
    url.append("/");
    url.append(file_name);
    url
}

/// Builds the address of one page image.
pub fn page_url(base_url: &str, hash: &str, file_name: &str) -> (r: String)
    ensures
        r@ == page_url_text(base_url@, hash@, file_name@),
{
    let mut url = String::from_str(base_url);
    url.append("/data/");
    url.append(hash);
    url.append("/");
    url.append(file_name);
    url
}

/// What stands before the first `/` of a text; the whole text where it holds
/// none.
pub open spec fn path_segment(rest: Seq<char>) -> Seq<char> {
    if occurs(rest, "/"@) {
        rest.take(first_occurrence(rest, "/"@))
    } else {
        rest
    }
}

/// The id of the series that a caller names, by its id or by the address of
/// its page: where the text holds the catalog's web domain and `/title/`, the
/// path segment that follows the first `/title/`; else the text itself.
pub open spec fn resolved_id(id_or_url: Seq<char>) -> Seq<char> {
    if occurs(id_or_url, "mangadex.org"@) && occurs(id_or_url, "/title/"@) {
        path_segment(
            id_or_url.skip(first_occurrence(id_or_url, "/title/"@) + "/title/"@.len()),
        )
    } else {
        id_or_url
    }
}

/// Resolves what a caller names a series by to the series' id.
pub fn resolve_manga_id(id_or_url: &str) -> (r: String)
    ensures
        r@ == resolved_id(id_or_url@),
{
    let chars = chars_of(id_or_url);
    let domain = chars_of("mangadex.org");
    let marker = chars_of("/title/");
    let slash = chars_of("/");
    if find(&chars, &domain).is_none() {
        return id_or_url.to_owned();
    }
    match find(&chars, &marker) {
        None => id_or_url.to_owned(),
        Some(at) => {
            let length: usize = chars.len();
            let start: usize = at + marker.len();
            let mut rest: Vec<char> = Vec::new();
            let mut i: usize = start;
            while i < length
                invariant
                    length == chars@.len(),
                    start <= i <= chars@.len(),
                    rest@ == chars@.subrange(start as int, i as int),
                decreases chars@.len() - i,
            {
                rest.push(chars[i]);
                proof {
                    assert(chars@.subrange(start as int, i + 1) =~= chars@.subrange(
                        start as int,
                        i as int,
                    ).push(chars@[i as int]));
                }
                i += 1;
            }
            proof {
                assert(rest@ =~= chars@.skip(start as int));
            }
            match find(&rest, &slash) {
                Some(end) => {
                    proof {
                        assert(rest@.subrange(0, end as int) =~= rest@.take(end as int));
                    }
                    text_of(&rest, 0, end)
                },
                None => {
                    proof {
                        assert(rest@.subrange(0, rest@.len() as int) =~= rest@);
                    }
                    text_of(&rest, 0, rest.len())
                },
            }
        },
    }
}

/// A text that does not hold the catalog's web domain names a series by its
/// id: it resolves to itself.
pub proof fn lemma_raw_id_resolves_to_itself(id: Seq<char>)
    requires
        !occurs(id, "mangadex.org"@),
    ensures
        resolved_id(id) == id,
{
}

} // verus!
