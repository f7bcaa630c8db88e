//! The records of the upstream catalog, as its answers hold them.

use vstd::prelude::*;

verus! {

/// A text in several languages: entries of a language code and the text in
/// that language, in the order in which the catalog's answer lists them.
#[derive(Debug, PartialEq, Eq)]
pub struct LocalizedText {
    pub entries: Vec<(String, String)>,
}

/// What a `LocalizedText` holds: pairs of a language code and a text.
pub type Localized = Seq<(Seq<char>, Seq<char>)>;

impl DeepView for LocalizedText {
    type V = Localized;

    open spec fn deep_view(&self) -> Localized {
        self.entries.deep_view()
    }
}

/// What the logic reads of the attributes that a relationship carries inline.
#[derive(Debug, PartialEq, Eq)]
pub struct RelationshipAttributes {
    /// The member `fileName`, where it is a string.
    pub file_name: Option<String>,
    /// The member `name`, where it is a string.
    pub name: Option<String>,
}

/// What a `RelationshipAttributes` holds, as mathematical values.
pub struct RelationshipAttributesModel {
    pub file_name: Option<Seq<char>>,
    pub name: Option<Seq<char>>,
}

impl DeepView for RelationshipAttributes {
    type V = RelationshipAttributesModel;

    open spec fn deep_view(&self) -> RelationshipAttributesModel {
        RelationshipAttributesModel {
            file_name: self.file_name.deep_view(),
            name: self.name.deep_view(),
        }
    }
}

/// A link from a series or chapter to an author, artist, cover or group.
#[derive(Debug, PartialEq, Eq)]
pub struct Relationship {
    pub id: String,
    pub rel_type: String,
    pub attributes: Option<RelationshipAttributes>,
}

/// What a `Relationship` holds, as mathematical values.
pub struct RelationshipModel {
    pub id: Seq<char>,
    pub rel_type: Seq<char>,
    pub attributes: Option<RelationshipAttributesModel>,
}

impl DeepView for Relationship {
    type V = RelationshipModel;

    open spec fn deep_view(&self) -> RelationshipModel {
        RelationshipModel {
            id: self.id@,
            rel_type: self.rel_type@,
            attributes: self.attributes.deep_view(),
        }
    }
}

/// A tag of a series; all that is read of it is its name.
#[derive(Debug, PartialEq, Eq)]
pub struct Tag {
    pub name: LocalizedText,
}

impl DeepView for Tag {
    type V = Localized;

    open spec fn deep_view(&self) -> Localized {
        self.name.deep_view()
    }
}

/// The attributes of a series.
#[derive(Debug, PartialEq, Eq)]
pub struct MangaAttributes {
    pub title: LocalizedText,
    pub alt_titles: Vec<LocalizedText>,
    pub description: LocalizedText,
    pub status: Option<String>,
    pub year: Option<i32>,
    pub content_rating: Option<String>,
    pub tags: Vec<Tag>,
    pub original_language: Option<String>,
    pub last_chapter: Option<String>,
    pub last_volume: Option<String>,
    pub publication_demographic: Option<String>,
    pub updated_at: Option<String>,
}

/// What a `MangaAttributes` holds, as mathematical values.
pub struct MangaAttributesModel {
    pub title: Localized,
    pub alt_titles: Seq<Localized>,
    pub description: Localized,
    pub status: Option<Seq<char>>,
    pub year: Option<i32>,
    pub content_rating: Option<Seq<char>>,
    pub tags: Seq<Localized>,
    pub original_language: Option<Seq<char>>,
    pub last_chapter: Option<Seq<char>>,
    pub last_volume: Option<Seq<char>>,
    pub publication_demographic: Option<Seq<char>>,
    pub updated_at: Option<Seq<char>>,
}

impl DeepView for MangaAttributes {
    type V = MangaAttributesModel;

    open spec fn deep_view(&self) -> MangaAttributesModel {
        MangaAttributesModel {
            title: self.title.deep_view(),
            alt_titles: self.alt_titles.deep_view(),
            description: self.description.deep_view(),
            status: self.status.deep_view(),
            year: self.year,
            content_rating: self.content_rating.deep_view(),
            tags: self.tags.deep_view(),
            original_language: self.original_language.deep_view(),
            last_chapter: self.last_chapter.deep_view(),
            last_volume: self.last_volume.deep_view(),
            publication_demographic: self.publication_demographic.deep_view(),
            updated_at: self.updated_at.deep_view(),
        }
    }
}

/// A series, as the catalog lists it.
#[derive(Debug, PartialEq, Eq)]
pub struct MangaData {
    pub id: String,
    pub attributes: MangaAttributes,
    pub relationships: Vec<Relationship>,
}

/// What a `MangaData` holds, as mathematical values.
pub struct MangaModel {
    pub id: Seq<char>,
    pub attributes: MangaAttributesModel,
    pub relationships: Seq<RelationshipModel>,
}

impl DeepView for MangaData {
    type V = MangaModel;

    open spec fn deep_view(&self) -> MangaModel {
        MangaModel {
            id: self.id@,
            attributes: self.attributes.deep_view(),
            relationships: self.relationships.deep_view(),
        }
    }
}

/// The answer to a search: an envelope with a page of series.
#[derive(Debug, PartialEq, Eq)]
pub struct MangaListResponse {
    pub result: String,
    pub data: Vec<MangaData>,
    pub total: i32,
}

/// What a `MangaListResponse` holds, as mathematical values.
pub struct MangaListModel {
    pub result: Seq<char>,
    pub data: Seq<MangaModel>,
    pub total: i32,
}

impl DeepView for MangaListResponse {
    type V = MangaListModel;

    open spec fn deep_view(&self) -> MangaListModel {
        MangaListModel { result: self.result@, data: self.data.deep_view(), total: self.total }
    }
}

/// The answer to a request for one series.
#[derive(Debug, PartialEq, Eq)]
pub struct MangaResponse {
    pub result: String,
    pub data: MangaData,
}

/// What a `MangaResponse` holds, as mathematical values.
pub struct MangaResponseModel {
    pub result: Seq<char>,
    pub data: MangaModel,
}

impl DeepView for MangaResponse {
    type V = MangaResponseModel;

    open spec fn deep_view(&self) -> MangaResponseModel {
        MangaResponseModel { result: self.result@, data: self.data.deep_view() }
    }
}

/// The attributes of a chapter.
#[derive(Debug, PartialEq, Eq)]
pub struct ChapterAttributes {
    pub chapter: Option<String>,
    pub title: Option<String>,
    pub volume: Option<String>,
    pub translated_language: Option<String>,
    pub publish_at: Option<String>,
    pub pages: Option<i32>,
    pub external_url: Option<String>,
}

/// What a `ChapterAttributes` holds, as mathematical values.
pub struct ChapterAttributesModel {
    pub chapter: Option<Seq<char>>,
    pub title: Option<Seq<char>>,
    pub volume: Option<Seq<char>>,
    pub translated_language: Option<Seq<char>>,
    pub publish_at: Option<Seq<char>>,
    pub pages: Option<i32>,
    pub external_url: Option<Seq<char>>,
}

impl DeepView for ChapterAttributes {
    type V = ChapterAttributesModel;

    open spec fn deep_view(&self) -> ChapterAttributesModel {
        ChapterAttributesModel {
            chapter: self.chapter.deep_view(),
            title: self.title.deep_view(),
            volume: self.volume.deep_view(),
            translated_language: self.translated_language.deep_view(),
            publish_at: self.publish_at.deep_view(),
            pages: self.pages,
            external_url: self.external_url.deep_view(),
        }
    }
}

/// A chapter, as the catalog's feed lists it.
#[derive(Debug, PartialEq, Eq)]
pub struct ChapterData {
    pub id: String,
    pub attributes: ChapterAttributes,
    pub relationships: Vec<Relationship>,
}

/// What a `ChapterData` holds, as mathematical values.
pub struct ChapterModel {
    pub id: Seq<char>,
    pub attributes: ChapterAttributesModel,
    pub relationships: Seq<RelationshipModel>,
}

impl DeepView for ChapterData {
    type V = ChapterModel;

    open spec fn deep_view(&self) -> ChapterModel {
        ChapterModel {
            id: self.id@,
            attributes: self.attributes.deep_view(),
            relationships: self.relationships.deep_view(),
        }
    }
}

/// One page of a series' chapter feed.
#[derive(Debug, PartialEq, Eq)]
pub struct ChapterFeedResponse {
    pub result: String,
    pub data: Vec<ChapterData>,
}

/// What a `ChapterFeedResponse` holds, as mathematical values.
pub struct ChapterFeedModel {
    pub result: Seq<char>,
    pub data: Seq<ChapterModel>,
}

impl DeepView for ChapterFeedResponse {
    type V = ChapterFeedModel;

    open spec fn deep_view(&self) -> ChapterFeedModel {
        ChapterFeedModel { result: self.result@, data: self.data.deep_view() }
    }
}

/// The files of a chapter on a delivery node.
#[derive(Debug, PartialEq, Eq)]
pub struct AtHomeChapter {
    pub hash: String,
    pub data: Vec<String>,
}

/// What an `AtHomeChapter` holds, as mathematical values.
pub struct AtHomeChapterModel {
    pub hash: Seq<char>,
    pub data: Seq<Seq<char>>,
}

impl DeepView for AtHomeChapter {
    type V = AtHomeChapterModel;

    open spec fn deep_view(&self) -> AtHomeChapterModel {
        AtHomeChapterModel { hash: self.hash@, data: self.data.deep_view() }
    }
}

/// The answer to the handshake with a delivery node.
#[derive(Debug, PartialEq, Eq)]
pub struct AtHomeResponse {
    pub result: String,
    pub base_url: String,
    pub chapter: AtHomeChapter,
}

/// What an `AtHomeResponse` holds, as mathematical values.
pub struct AtHomeModel {
    pub result: Seq<char>,
    pub base_url: Seq<char>,
    pub chapter: AtHomeChapterModel,
}

impl DeepView for AtHomeResponse {
    type V = AtHomeModel;

    open spec fn deep_view(&self) -> AtHomeModel {
        AtHomeModel {
            result: self.result@,
            base_url: self.base_url@,
            chapter: self.chapter.deep_view(),
        }
    }
}

} // verus!
