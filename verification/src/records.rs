//! The records that the adapter hands to its host.

use vstd::prelude::*;

verus! {

/// What the adapter says of itself.
#[derive(Debug, PartialEq, Eq)]
pub struct SourceInfo {
    pub id: String,
    pub name: String,
    pub base_url: String,
    pub language: String,
    pub supported_languages: Vec<String>,
    pub requires_authentication: bool,
    pub capability_level: String,
}

/// What a `SourceInfo` holds, as mathematical values.
pub struct SourceInfoModel {
    pub id: Seq<char>,
    pub name: Seq<char>,
    pub base_url: Seq<char>,
    pub language: Seq<char>,
    pub supported_languages: Seq<Seq<char>>,
    pub requires_authentication: bool,
    pub capability_level: Seq<char>,
}

impl DeepView for SourceInfo {
    type V = SourceInfoModel;

    open spec fn deep_view(&self) -> SourceInfoModel {
        SourceInfoModel {
            id: self.id@,
            name: self.name@,
            base_url: self.base_url@,
            language: self.language@,
            supported_languages: self.supported_languages.deep_view(),
            requires_authentication: self.requires_authentication,
            capability_level: self.capability_level@,
        }
    }
}

/// A series, as a search lists it.
#[derive(Debug, PartialEq, Eq)]
pub struct SeriesResult {
    pub id: String,
    pub title: String,
    pub url: String,
    pub cover_url: Option<String>,
    pub alternate_titles: Vec<String>,
    pub authors: Vec<String>,
    pub artists: Vec<String>,
    pub status: String,
    pub genres: Vec<String>,
    pub tags: Vec<String>,
    pub description: Option<String>,
}

/// What a `SeriesResult` holds, as mathematical values.
pub struct SeriesModel {
    pub id: Seq<char>,
    pub title: Seq<char>,
    pub url: Seq<char>,
    pub cover_url: Option<Seq<char>>,
    pub alternate_titles: Seq<Seq<char>>,
    pub authors: Seq<Seq<char>>,
    pub artists: Seq<Seq<char>>,
    pub status: Seq<char>,
    pub genres: Seq<Seq<char>>,
    pub tags: Seq<Seq<char>>,
    pub description: Option<Seq<char>>,
}

impl DeepView for SeriesResult {
    type V = SeriesModel;

    open spec fn deep_view(&self) -> SeriesModel {
        SeriesModel {
            id: self.id@,
            title: self.title@,
            url: self.url@,
            cover_url: self.cover_url.deep_view(),
            alternate_titles: self.alternate_titles.deep_view(),
            authors: self.authors.deep_view(),
            artists: self.artists.deep_view(),
            status: self.status@,
            genres: self.genres.deep_view(),
            tags: self.tags.deep_view(),
            description: self.description.deep_view(),
        }
    }
}

/// One page of a search.
#[derive(Debug, PartialEq, Eq)]
pub struct SearchResult {
    pub series: Vec<SeriesResult>,
    pub has_more: bool,
    pub total: i32,
}

/// What a `SearchResult` holds, as mathematical values.
pub struct SearchModel {
    pub series: Seq<SeriesModel>,
    pub has_more: bool,
    pub total: i32,
}

impl DeepView for SearchResult {
    type V = SearchModel;

    open spec fn deep_view(&self) -> SearchModel {
        SearchModel {
            series: self.series.deep_view(),
            has_more: self.has_more,
            total: self.total,
        }
    }
}

/// What a series' full record holds beyond the rest.
#[derive(Debug, PartialEq, Eq)]
pub struct SeriesExtra {
    pub original_language: Option<String>,
    pub last_chapter: Option<String>,
    pub last_volume: Option<String>,
    pub demographic: Option<String>,
}

/// What a `SeriesExtra` holds, as mathematical values.
pub struct SeriesExtraModel {
    pub original_language: Option<Seq<char>>,
    pub last_chapter: Option<Seq<char>>,
    pub last_volume: Option<Seq<char>>,
    pub demographic: Option<Seq<char>>,
}

impl DeepView for SeriesExtra {
    type V = SeriesExtraModel;

    open spec fn deep_view(&self) -> SeriesExtraModel {
        SeriesExtraModel {
            original_language: self.original_language.deep_view(),
            last_chapter: self.last_chapter.deep_view(),
            last_volume: self.last_volume.deep_view(),
            demographic: self.demographic.deep_view(),
        }
    }
}

/// The full record of a series.
#[derive(Debug, PartialEq, Eq)]
pub struct SeriesDetail {
    pub id: String,
    pub title: String,
    pub alternate_titles: Vec<String>,
    pub description: Option<String>,
    pub cover_url: Option<String>,
    pub authors: Vec<String>,
    pub artists: Vec<String>,
    pub status: String,
    pub genres: Vec<String>,
    pub tags: Vec<String>,
    pub year: Option<i32>,
    pub content_rating: Option<String>,
    pub url: String,
    pub extra: SeriesExtra,
}

/// What a `SeriesDetail` holds, as mathematical values.
pub struct SeriesDetailModel {
    pub id: Seq<char>,
    pub title: Seq<char>,
    pub alternate_titles: Seq<Seq<char>>,
    pub description: Option<Seq<char>>,
    pub cover_url: Option<Seq<char>>,
    pub authors: Seq<Seq<char>>,
    pub artists: Seq<Seq<char>>,
    pub status: Seq<char>,
    pub genres: Seq<Seq<char>>,
    pub tags: Seq<Seq<char>>,
    pub year: Option<i32>,
    pub content_rating: Option<Seq<char>>,
    pub url: Seq<char>,
    pub extra: SeriesExtraModel,
}

impl DeepView for SeriesDetail {
    type V = SeriesDetailModel;

    open spec fn deep_view(&self) -> SeriesDetailModel {
        SeriesDetailModel {
            id: self.id@,
            title: self.title@,
            alternate_titles: self.alternate_titles.deep_view(),
            description: self.description.deep_view(),
            cover_url: self.cover_url.deep_view(),
            authors: self.authors.deep_view(),
            artists: self.artists.deep_view(),
            status: self.status@,
            genres: self.genres.deep_view(),
            tags: self.tags.deep_view(),
            year: self.year,
            content_rating: self.content_rating.deep_view(),
            url: self.url@,
            extra: self.extra.deep_view(),
        }
    }
}

/// What is handed out in place of a series' record that could not be had.
#[derive(Debug, PartialEq, Eq)]
pub struct ErrorPayload {
    pub error: String,
}

impl DeepView for ErrorPayload {
    type V = Seq<char>;

    open spec fn deep_view(&self) -> Seq<char> {
        self.error@
    }
}

/// A chapter of a series.
#[derive(Debug, PartialEq, Eq)]
pub struct ChapterResult {
    pub id: String,
    pub series_id: String,
    pub number: Option<String>,
    pub title: Option<String>,
    pub volume: Option<String>,
    pub language: Option<String>,
    pub scanlator: Option<String>,
    pub url: String,
    pub published_at: Option<String>,
    pub page_count: Option<i32>,
}

/// What a `ChapterResult` holds, as mathematical values.
pub struct ChapterEntryModel {
    pub id: Seq<char>,
    pub series_id: Seq<char>,
    pub number: Option<Seq<char>>,
    pub title: Option<Seq<char>>,
    pub volume: Option<Seq<char>>,
    pub language: Option<Seq<char>>,
    pub scanlator: Option<Seq<char>>,
    pub url: Seq<char>,
    pub published_at: Option<Seq<char>>,
    pub page_count: Option<i32>,
}

impl DeepView for ChapterResult {
    type V = ChapterEntryModel;

    open spec fn deep_view(&self) -> ChapterEntryModel {
        ChapterEntryModel {
            id: self.id@,
            series_id: self.series_id@,
            number: self.number.deep_view(),
            title: self.title.deep_view(),
            volume: self.volume.deep_view(),
            language: self.language.deep_view(),
            scanlator: self.scanlator.deep_view(),
            url: self.url@,
            published_at: self.published_at.deep_view(),
            page_count: self.page_count,
        }
    }
}

/// One page image of a chapter.
#[derive(Debug, PartialEq, Eq)]
pub struct PageResult {
    /// The place of the page in the chapter, counted from zero.
    pub index: usize,
    pub url: String,
    /// Further headers that a request for the image has to carry, as pairs of
    /// a name and a value.
    pub headers: Vec<(String, String)>,
    /// The referer that a request for the image has to carry.
    pub referer: String,
}

/// What a `PageResult` holds, as mathematical values.
pub struct PageModel {
    pub index: int,
    pub url: Seq<char>,
    pub headers: Seq<(Seq<char>, Seq<char>)>,
    pub referer: Seq<char>,
}

impl DeepView for PageResult {
    type V = PageModel;

    open spec fn deep_view(&self) -> PageModel {
        PageModel {
            index: self.index as int,
            url: self.url@,
            headers: self.headers.deep_view(),
            referer: self.referer@,
        }
    }
}

} // verus!
