//! Reading the catalog's records out of JSON documents.
//!
//! Each reader gives `None` where the document does not have the shape of the
//! record: a member that has to be there is missing, or a member holds a value
//! of another kind than the record allows. Members that the record does not
//! name are passed over.

use vstd::prelude::*;
use vstd::string::*;
use crate::catalog::{
    AtHomeChapter, AtHomeChapterModel, AtHomeModel, AtHomeResponse, ChapterAttributes,
    ChapterAttributesModel, ChapterData, ChapterFeedModel, ChapterFeedResponse, ChapterModel,
    Localized, LocalizedText, MangaAttributes, MangaAttributesModel, MangaData, MangaListModel,
    MangaListResponse, MangaModel, MangaResponse, MangaResponseModel, Relationship,
    RelationshipAttributes, RelationshipAttributesModel, RelationshipModel, Tag,
};
use crate::json::{Json, JsonValue};

verus! {

/// A string member; where it is missing or no string, `None`.
pub open spec fn text_member(j: JsonValue, key: Seq<char>) -> Option<Seq<char>> {
    match j.field(key) {
        Some(v) => v.text(),
        None => None,
    }
}

/// A string member that may be missing or `null`: then `Some(None)`. Where it
/// is there and neither `null` nor a string, the record is malformed: `None`.
pub open spec fn optional_text_member(j: JsonValue, key: Seq<char>) -> Option<Option<Seq<char>>> {
    match j.field(key) {
        None => Some(None),
        Some(JsonValue::Null) => Some(None),
        Some(JsonValue::Text(s)) => Some(Some(s)),
        Some(_) => None,
    }
}

/// An integer member of 32 bits that may be missing or `null`.
pub open spec fn optional_int_member(j: JsonValue, key: Seq<char>) -> Option<Option<i32>> {
    match j.field(key) {
        None => Some(None),
        Some(JsonValue::Null) => Some(None),
        Some(v) => match v.int32() {
            Some(n) => Some(Some(n)),
            None => None,
        },
    }
}

/// An integer member of 32 bits that counts as zero where it is missing.
pub open spec fn int_member_or_zero(j: JsonValue, key: Seq<char>) -> Option<i32> {
    match j.field(key) {
        None => Some(0i32),
        Some(v) => v.int32(),
    }
}

/// A text in several languages: an object whose members are all strings.
pub open spec fn localized_of(j: JsonValue) -> Option<Localized> {
    match j {
        JsonValue::Object(entries) => if forall|i: int|
            0 <= i < entries.len() ==> (#[trigger] entries[i]).1.text() is Some {
            Some(Seq::new(entries.len(), |i: int| (entries[i].0, entries[i].1.text().unwrap())))
        } else {
            None
        },
        _ => None,
    }
}

/// A list: an array whose items all have the shape that `item` reads.
pub open spec fn list_of<T>(j: JsonValue, item: spec_fn(JsonValue) -> Option<T>) -> Option<Seq<T>> {
    match j {
        JsonValue::Array(items) => if forall|i: int|
            0 <= i < items.len() ==> item(#[trigger] items[i]) is Some {
            Some(Seq::new(items.len(), |i: int| item(items[i]).unwrap()))
        } else {
            None
        },
        _ => None,
    }
}

/// What is read of the attributes inlined in a relationship: nothing where
/// they are missing or `null`; else the string members `fileName` and `name`,
/// as far as the value has them.
pub open spec fn inline_attributes_of(member: Option<JsonValue>) -> Option<
    RelationshipAttributesModel,
> {
    match member {
        None => None,
        Some(JsonValue::Null) => None,
        Some(v) => Some(
            RelationshipAttributesModel {
                file_name: text_member(v, "fileName"@),
                name: text_member(v, "name"@),
            },
        ),
    }
}

/// A relationship: `id` and `type` have to be strings.
pub open spec fn relationship_of(j: JsonValue) -> Option<RelationshipModel> {
    let id = text_member(j, "id"@);
    let rel_type = text_member(j, "type"@);
    if id is Some && rel_type is Some {
        Some(
            RelationshipModel {
                id: id.unwrap(),
                rel_type: rel_type.unwrap(),
                attributes: inline_attributes_of(j.field("attributes"@)),
            },
        )
    } else {
        None
    }
}

/// A list of relationships.
pub open spec fn relationships_of(j: JsonValue) -> Option<Seq<RelationshipModel>> {
    list_of(j, |v: JsonValue| relationship_of(v))
}

/// A tag: its member `attributes` has to hold the member `name`, a text in
/// several languages.
pub open spec fn tag_of(j: JsonValue) -> Option<Localized> {
    match j.field("attributes"@) {
        Some(a) => match a.field("name"@) {
            Some(n) => localized_of(n),
            None => None,
        },
        None => None,
    }
}

/// A list of tags.
pub open spec fn tags_of(j: JsonValue) -> Option<Seq<Localized>> {
    list_of(j, |v: JsonValue| tag_of(v))
}

/// A list of texts in several languages.
pub open spec fn localized_list_of(j: JsonValue) -> Option<Seq<Localized>> {
    list_of(j, |v: JsonValue| localized_of(v))
}

/// A string.
pub open spec fn text_item(j: JsonValue) -> Option<Seq<char>> {
    j.text()
}

/// A list of strings.
pub open spec fn texts_of(j: JsonValue) -> Option<Seq<Seq<char>>> {
    list_of(j, |v: JsonValue| text_item(v))
}

/// The attributes of a series. `title` has to be there; `altTitles`,
/// `description` and `tags` count as empty where they are missing.
pub open spec fn manga_attributes_of(j: JsonValue) -> Option<MangaAttributesModel> {
    let title = match j.field("title"@) {
        Some(v) => localized_of(v),
        None => None,
    };
    let alt_titles = match j.field("altTitles"@) {
        Some(v) => localized_list_of(v),
        None => Some(Seq::empty()),
    };
    let description: Option<Localized> = match j.field("description"@) {
        Some(v) => localized_of(v),
        None => Some(Seq::empty()),
    };
    let status = optional_text_member(j, "status"@);
    let year = optional_int_member(j, "year"@);
    let content_rating = optional_text_member(j, "contentRating"@);
    let tags = match j.field("tags"@) {
        Some(v) => tags_of(v),
        None => Some(Seq::empty()),
    };
    let original_language = optional_text_member(j, "originalLanguage"@);
    let last_chapter = optional_text_member(j, "lastChapter"@);
    let last_volume = optional_text_member(j, "lastVolume"@);
    let publication_demographic = optional_text_member(j, "publicationDemographic"@);
    let updated_at = optional_text_member(j, "updatedAt"@);
    if title is Some && alt_titles is Some && description is Some && status is Some && year is Some
        && content_rating is Some && tags is Some && original_language is Some
        && last_chapter is Some && last_volume is Some && publication_demographic is Some
        && updated_at is Some {
        Some(
            MangaAttributesModel {
                title: title.unwrap(),
                alt_titles: alt_titles.unwrap(),
                description: description.unwrap(),
                status: status.unwrap(),
                year: year.unwrap(),
                content_rating: content_rating.unwrap(),
                tags: tags.unwrap(),
                original_language: original_language.unwrap(),
                last_chapter: last_chapter.unwrap(),
                last_volume: last_volume.unwrap(),
                publication_demographic: publication_demographic.unwrap(),
                updated_at: updated_at.unwrap(),
            },
        )
    } else {
        None
    }
}

/// A series: `id`, `attributes` and `relationships` have to be there.
pub open spec fn manga_of(j: JsonValue) -> Option<MangaModel> {
    let id = text_member(j, "id"@);
    let attributes = match j.field("attributes"@) {
        Some(v) => manga_attributes_of(v),
        None => None,
    };
    let relationships = match j.field("relationships"@) {
        Some(v) => relationships_of(v),
        None => None,
    };
    if id is Some && attributes is Some && relationships is Some {
        Some(
            MangaModel {
                id: id.unwrap(),
                attributes: attributes.unwrap(),
                relationships: relationships.unwrap(),
            },
        )
    } else {
        None
    }
}

/// A list of series.
pub open spec fn mangas_of(j: JsonValue) -> Option<Seq<MangaModel>> {
    list_of(j, |v: JsonValue| manga_of(v))
}

/// The answer to a search: `result` and `data` have to be there; `total`
/// counts as zero where it is missing.
pub open spec fn manga_list_of(j: JsonValue) -> Option<MangaListModel> {
    let result = text_member(j, "result"@);
    let data = match j.field("data"@) {
        Some(v) => mangas_of(v),
        None => None,
    };
    let total = int_member_or_zero(j, "total"@);
    if result is Some && data is Some && total is Some {
        Some(MangaListModel { result: result.unwrap(), data: data.unwrap(), total: total.unwrap() })
    } else {
        None
    }
}

/// The answer to a request for one series: `result` and `data` have to be
/// there.
pub open spec fn manga_response_of(j: JsonValue) -> Option<MangaResponseModel> {
    let result = text_member(j, "result"@);
    let data = match j.field("data"@) {
        Some(v) => manga_of(v),
        None => None,
    };
    if result is Some && data is Some {
        Some(MangaResponseModel { result: result.unwrap(), data: data.unwrap() })
    } else {
        None
    }
}

/// The attributes of a chapter: an object, each of whose named members may be
/// missing.
pub open spec fn chapter_attributes_of(j: JsonValue) -> Option<ChapterAttributesModel> {
    let chapter = optional_text_member(j, "chapter"@);
    let title = optional_text_member(j, "title"@);
    let volume = optional_text_member(j, "volume"@);
    let translated_language = optional_text_member(j, "translatedLanguage"@);
    let publish_at = optional_text_member(j, "publishAt"@);
    let pages = optional_int_member(j, "pages"@);
    let external_url = optional_text_member(j, "externalUrl"@);
    if j is Object && chapter is Some && title is Some && volume is Some
        && translated_language is Some && publish_at is Some && pages is Some
        && external_url is Some {
        Some(
            ChapterAttributesModel {
                chapter: chapter.unwrap(),
                title: title.unwrap(),
                volume: volume.unwrap(),
                translated_language: translated_language.unwrap(),
                publish_at: publish_at.unwrap(),
                pages: pages.unwrap(),
                external_url: external_url.unwrap(),
            },
        )
    } else {
        None
    }
}

/// A chapter: `id`, `attributes` and `relationships` have to be there.
pub open spec fn chapter_of(j: JsonValue) -> Option<ChapterModel> {
    let id = text_member(j, "id"@);
    let attributes = match j.field("attributes"@) {
        Some(v) => chapter_attributes_of(v),
        None => None,
    };
    let relationships = match j.field("relationships"@) {
        Some(v) => relationships_of(v),
        None => None,
    };
    if id is Some && attributes is Some && relationships is Some {
        Some(
            ChapterModel {
                id: id.unwrap(),
                attributes: attributes.unwrap(),
                relationships: relationships.unwrap(),
            },
        )
    } else {
        None
    }
}

/// A list of chapters.
pub open spec fn chapters_of(j: JsonValue) -> Option<Seq<ChapterModel>> {
    list_of(j, |v: JsonValue| chapter_of(v))
}

/// One page of a chapter feed: `result` and `data` have to be there.
pub open spec fn chapter_feed_of(j: JsonValue) -> Option<ChapterFeedModel> {
    let result = text_member(j, "result"@);
    let data = match j.field("data"@) {
        Some(v) => chapters_of(v),
        None => None,
    };
    if result is Some && data is Some {
        Some(ChapterFeedModel { result: result.unwrap(), data: data.unwrap() })
    } else {
        None
    }
}

/// The files of a chapter: `hash` and the list `data` have to be there.
pub open spec fn at_home_chapter_of(j: JsonValue) -> Option<AtHomeChapterModel> {
    let hash = text_member(j, "hash"@);
    let data = match j.field("data"@) {
        Some(v) => texts_of(v),
        None => None,
    };
    if hash is Some && data is Some {
        Some(AtHomeChapterModel { hash: hash.unwrap(), data: data.unwrap() })
    } else {
        None
    }
}

/// The answer to a handshake: `result`, `baseUrl` and `chapter` have to be
/// there.
pub open spec fn at_home_of(j: JsonValue) -> Option<AtHomeModel> {
    let result = text_member(j, "result"@);
    let base_url = text_member(j, "baseUrl"@);
    let chapter = match j.field("chapter"@) {
        Some(v) => at_home_chapter_of(v),
        None => None,
    };
    if result is Some && base_url is Some && chapter is Some {
        Some(
            AtHomeModel {
                result: result.unwrap(),
                base_url: base_url.unwrap(),
                chapter: chapter.unwrap(),
            },
        )
    } else {
        None
    }
}

fn read_text(j: &Json, key: &str) -> (r: Option<String>)
    ensures
        r.deep_view() == text_member(j.deep_view(), key@),
{
    match j.field(key) {
        Some(v) => match v.as_text() {
            Some(s) => Some(s.clone()),
            None => None,
        },
        None => None,
    }
}

fn read_optional_text(j: &Json, key: &str) -> (r: Option<Option<String>>)
    ensures
        r.deep_view() == optional_text_member(j.deep_view(), key@),
{
    match j.field(key) {
        None => Some(None),
        Some(v) => match v {
            Json::Null => Some(None),
            Json::Text(s) => Some(Some(s.clone())),
            _ => None,
        },
    }
}

fn read_optional_int(j: &Json, key: &str) -> (r: Option<Option<i32>>)
    ensures
        r == optional_int_member(j.deep_view(), key@),
{
    match j.field(key) {
        None => Some(None),
        Some(v) => if v.is_null() {
            Some(None)
        } else {
            match v.as_i32() {
                Some(n) => Some(Some(n)),
                None => None,
            }
        },
    }
}

/// Reads a text in several languages.
pub fn decode_localized(j: &Json) -> (r: Option<LocalizedText>)
    ensures
        r.deep_view() == localized_of(j.deep_view()),
{
    match j.as_object() {
        Some(entries) => {
            let ghost all = j.deep_view().members().unwrap();
            let mut out: Vec<(String, String)> = Vec::new();
            let mut i: usize = 0;
            while i < entries.len()
                invariant
                    i <= entries@.len(),
                    all == entries.deep_view(),
                    j.deep_view() == JsonValue::Object(all),
                    forall|k: int| 0 <= k < i ==> (#[trigger] all[k]).1.text() is Some,
                    out@.len() == i,
                    forall|k: int|
                        0 <= k < i ==> (#[trigger] out@[k]).deep_view() == (
                            all[k].0,
                            all[k].1.text().unwrap(),
                        ),
                decreases entries@.len() - i,
            {
                match entries[i].1.as_text() {
                    Some(t) => {
                        out.push((entries[i].0.clone(), t.clone()));
                    },
                    None => {
                        assert(all[i as int].1.text() is None);
                        return None;
                    },
                }
                i += 1;
            }
            assert(out.deep_view() =~= localized_of(j.deep_view()).unwrap());
            Some(LocalizedText { entries: out })
        },
        None => None,
    }
}

fn read_inline_attributes(member: Option<&Json>) -> (r: Option<RelationshipAttributes>)
    ensures
        r.deep_view() == inline_attributes_of(member.deep_view()),
{
    match member {
        None => None,
        Some(v) => if v.is_null() {
            None
        } else {
            Some(
                RelationshipAttributes {
                    file_name: read_text(v, "fileName"),
                    name: read_text(v, "name"),
                },
            )
        },
    }
}

/// Reads a relationship.
pub fn decode_relationship(j: &Json) -> (r: Option<Relationship>)
    ensures
        r.deep_view() == relationship_of(j.deep_view()),
{
    let id = match read_text(j, "id") {
        Some(s) => s,
        None => { return None; },
    };
    let rel_type = match read_text(j, "type") {
        Some(s) => s,
        None => { return None; },
    };
    let attributes = read_inline_attributes(j.field("attributes"));
    Some(Relationship { id, rel_type, attributes })
}

/// Reads a list of relationships.
pub fn decode_relationships(j: &Json) -> (r: Option<Vec<Relationship>>)
    ensures
        r.deep_view() == relationships_of(j.deep_view()),
{
    match j.as_array() {
        Some(items) => {
            let ghost all = j.deep_view().items().unwrap();
            let mut out: Vec<Relationship> = Vec::new();
            let mut i: usize = 0;
            while i < items.len()
                invariant
                    i <= items@.len(),
                    all == items.deep_view(),
                    j.deep_view() == JsonValue::Array(all),
                    forall|k: int| 0 <= k < i ==> relationship_of(#[trigger] all[k]) is Some,
                    out@.len() == i,
                    forall|k: int|
                        0 <= k < i ==> (#[trigger] out@[k]).deep_view() == relationship_of(
                            all[k],
                        ).unwrap(),
                decreases items@.len() - i,
            {
                match decode_relationship(&items[i]) {
                    Some(x) => {
                        out.push(x);
                    },
                    None => {
                        assert(relationship_of(all[i as int]) is None);
                        return None;
                    },
                }
                i += 1;
            }
            assert(out.deep_view() =~= relationships_of(j.deep_view()).unwrap());
            Some(out)
        },
        None => None,
    }
}

/// Reads a tag.
pub fn decode_tag(j: &Json) -> (r: Option<Tag>)
    ensures
        r.deep_view() == tag_of(j.deep_view()),
{
    match j.field("attributes") {
        Some(a) => match a.field("name") {
            Some(n) => match decode_localized(n) {
                Some(name) => Some(Tag { name }),
                None => None,
            },
            None => None,
        },
        None => None,
    }
}

/// Reads a list of tags.
pub fn decode_tags(j: &Json) -> (r: Option<Vec<Tag>>)
    ensures
        r.deep_view() == tags_of(j.deep_view()),
{
    match j.as_array() {
        Some(items) => {
            let ghost all = j.deep_view().items().unwrap();
            let mut out: Vec<Tag> = Vec::new();
            let mut i: usize = 0;
            while i < items.len()
                invariant
                    i <= items@.len(),
                    all == items.deep_view(),
                    j.deep_view() == JsonValue::Array(all),
                    forall|k: int| 0 <= k < i ==> tag_of(#[trigger] all[k]) is Some,
                    out@.len() == i,
                    forall|k: int|
                        0 <= k < i ==> (#[trigger] out@[k]).deep_view() == tag_of(
                            all[k],
                        ).unwrap(),
                decreases items@.len() - i,
            {
                match decode_tag(&items[i]) {
                    Some(x) => {
                        out.push(x);
                    },
                    None => {
                        assert(tag_of(all[i as int]) is None);
                        return None;
                    },
                }
                i += 1;
            }
            assert(out.deep_view() =~= tags_of(j.deep_view()).unwrap());
            Some(out)
        },
        None => None,
    }
}

/// Reads a list of texts in several languages.
pub fn decode_localized_list(j: &Json) -> (r: Option<Vec<LocalizedText>>)
    ensures
        r.deep_view() == localized_list_of(j.deep_view()),
{
    match j.as_array() {
        Some(items) => {
            let ghost all = j.deep_view().items().unwrap();
            let mut out: Vec<LocalizedText> = Vec::new();
            let mut i: usize = 0;
            while i < items.len()
                invariant
                    i <= items@.len(),
                    all == items.deep_view(),
                    j.deep_view() == JsonValue::Array(all),
                    forall|k: int| 0 <= k < i ==> localized_of(#[trigger] all[k]) is Some,
                    out@.len() == i,
                    forall|k: int|
                        0 <= k < i ==> (#[trigger] out@[k]).deep_view() == localized_of(
                            all[k],
                        ).unwrap(),
                decreases items@.len() - i,
            {
                match decode_localized(&items[i]) {
                    Some(x) => {
                        out.push(x);
                    },
                    None => {
                        assert(localized_of(all[i as int]) is None);
                        return None;
                    },
                }
                i += 1;
            }
            assert(out.deep_view() =~= localized_list_of(j.deep_view()).unwrap());
            Some(out)
        },
        None => None,
    }
}

fn read_string(j: &Json) -> (r: Option<String>)
    ensures
        r.deep_view() == j.deep_view().text(),
{
    match j.as_text() {
        Some(s) => Some(s.clone()),
        None => None,
    }
}

/// Reads a list of strings.
pub fn decode_texts(j: &Json) -> (r: Option<Vec<String>>)
    ensures
        r.deep_view() == texts_of(j.deep_view()),
{
    match j.as_array() {
        Some(items) => {
            let ghost all = j.deep_view().items().unwrap();
            let mut out: Vec<String> = Vec::new();
            let mut i: usize = 0;
            while i < items.len()
                invariant
                    i <= items@.len(),
                    all == items.deep_view(),
                    j.deep_view() == JsonValue::Array(all),
                    forall|k: int| 0 <= k < i ==> text_item(#[trigger] all[k]) is Some,
                    out@.len() == i,
                    forall|k: int|
                        0 <= k < i ==> (#[trigger] out@[k]).deep_view() == text_item(
                            all[k],
                        ).unwrap(),
                decreases items@.len() - i,
            {
                match read_string(&items[i]) {
                    Some(x) => {
                        out.push(x);
                    },
                    None => {
                        assert(text_item(all[i as int]) is None);
                        return None;
                    },
                }
                i += 1;
            }
            assert(out.deep_view() =~= texts_of(j.deep_view()).unwrap());
            Some(out)
        },
        None => None,
    }
}

fn read_localized_or_empty(member: Option<&Json>) -> (r: Option<LocalizedText>)
    ensures
        r.deep_view() == match member.deep_view() {
            Some(v) => localized_of(v),
            None => Some(Seq::empty()),
        },
{
    match member {
        Some(v) => decode_localized(v),
        None => {
            let empty = LocalizedText { entries: Vec::new() };
            assert(empty.deep_view() =~= Seq::empty());
            Some(empty)
        },
    }
}

/// Reads the attributes of a series.
pub fn decode_manga_attributes(j: &Json) -> (r: Option<MangaAttributes>)
    ensures
        r.deep_view() == manga_attributes_of(j.deep_view()),
{
    let title = match j.field("title") {
        Some(v) => match decode_localized(v) {
            Some(t) => t,
            None => { return None; },
        },
        None => { return None; },
    };
    let alt_titles = match j.field("altTitles") {
        Some(v) => match decode_localized_list(v) {
            Some(t) => t,
            None => { return None; },
        },
        None => {
            let empty: Vec<LocalizedText> = Vec::new();
            assert(empty.deep_view() =~= Seq::empty());
            empty
        },
    };
    let description = match read_localized_or_empty(j.field("description")) {
        Some(t) => t,
        None => { return None; },
    };
    let status = match read_optional_text(j, "status") {
        Some(t) => t,
        None => { return None; },
    };
    let year = match read_optional_int(j, "year") {
        Some(t) => t,
        None => { return None; },
    };
    let content_rating = match read_optional_text(j, "contentRating") {
        Some(t) => t,
        None => { return None; },
    };
    let tags = match j.field("tags") {
        Some(v) => match decode_tags(v) {
            Some(t) => t,
            None => { return None; },
        },
        None => {
            let empty: Vec<Tag> = Vec::new();
            assert(empty.deep_view() =~= Seq::empty());
            empty
        },
    };
    let original_language = match read_optional_text(j, "originalLanguage") {
        Some(t) => t,
        None => { return None; },
    };
    let last_chapter = match read_optional_text(j, "lastChapter") {
        Some(t) => t,
        None => { return None; },
    };
    let last_volume = match read_optional_text(j, "lastVolume") {
        Some(t) => t,
        None => { return None; },
    };
    let publication_demographic = match read_optional_text(j, "publicationDemographic") {
        Some(t) => t,
        None => { return None; },
    };
    let updated_at = match read_optional_text(j, "updatedAt") {
        Some(t) => t,
        None => { return None; },
    };
    Some(
        MangaAttributes {
            title,
            alt_titles,
            description,
            status,
            year,
            content_rating,
            tags,
            original_language,
            last_chapter,
            last_volume,
            publication_demographic,
            updated_at,
        },
    )
}

/// Reads a series.
pub fn decode_manga(j: &Json) -> (r: Option<MangaData>)
    ensures
        r.deep_view() == manga_of(j.deep_view()),
{
    let id = match read_text(j, "id") {
        Some(s) => s,
        None => { return None; },
    };
    let attributes = match j.field("attributes") {
        Some(v) => match decode_manga_attributes(v) {
            Some(a) => a,
            None => { return None; },
        },
        None => { return None; },
    };
    let relationships = match j.field("relationships") {
        Some(v) => match decode_relationships(v) {
            Some(a) => a,
            None => { return None; },
        },
        None => { return None; },
    };
    Some(MangaData { id, attributes, relationships })
}

/// Reads a list of series.
pub fn decode_mangas(j: &Json) -> (r: Option<Vec<MangaData>>)
    ensures
        r.deep_view() == mangas_of(j.deep_view()),
{
    match j.as_array() {
        Some(items) => {
            let ghost all = j.deep_view().items().unwrap();
            let mut out: Vec<MangaData> = Vec::new();
            let mut i: usize = 0;
            while i < items.len()
                invariant
                    i <= items@.len(),
                    all == items.deep_view(),
                    j.deep_view() == JsonValue::Array(all),
                    forall|k: int| 0 <= k < i ==> manga_of(#[trigger] all[k]) is Some,
                    out@.len() == i,
                    forall|k: int|
                        0 <= k < i ==> (#[trigger] out@[k]).deep_view() == manga_of(
                            all[k],
                        ).unwrap(),
                decreases items@.len() - i,
            {
                match decode_manga(&items[i]) {
                    Some(x) => {
                        out.push(x);
                    },
                    None => {
                        assert(manga_of(all[i as int]) is None);
                        return None;
                    },
                }
                i += 1;
            }
            assert(out.deep_view() =~= mangas_of(j.deep_view()).unwrap());
            Some(out)
        },
        None => None,
    }
}

/// Reads the answer to a search.
pub fn decode_manga_list(j: &Json) -> (r: Option<MangaListResponse>)
    ensures
        r.deep_view() == manga_list_of(j.deep_view()),
{
    let result = match read_text(j, "result") {
        Some(s) => s,
        None => { return None; },
    };
    let data = match j.field("data") {
        Some(v) => match decode_mangas(v) {
            Some(a) => a,
            None => { return None; },
        },
        None => { return None; },
    };
    let total = match j.field("total") {
        Some(v) => match v.as_i32() {
            Some(n) => n,
            None => { return None; },
        },
        None => 0,
    };
    Some(MangaListResponse { result, data, total })
}

/// Reads the answer to a request for one series.
pub fn decode_manga_response(j: &Json) -> (r: Option<MangaResponse>)
    ensures
        r.deep_view() == manga_response_of(j.deep_view()),
{
    let result = match read_text(j, "result") {
        Some(s) => s,
        None => { return None; },
    };
    let data = match j.field("data") {
        Some(v) => match decode_manga(v) {
            Some(a) => a,
            None => { return None; },
        },
        None => { return None; },
    };
    Some(MangaResponse { result, data })
}

/// Reads the attributes of a chapter.
pub fn decode_chapter_attributes(j: &Json) -> (r: Option<ChapterAttributes>)
    ensures
        r.deep_view() == chapter_attributes_of(j.deep_view()),
{
    if j.as_object().is_none() {
        return None;
    }
    let chapter = match read_optional_text(j, "chapter") {
        Some(t) => t,
        None => { return None; },
    };
    let title = match read_optional_text(j, "title") {
        Some(t) => t,
        None => { return None; },
    };
    let volume = match read_optional_text(j, "volume") {
        Some(t) => t,
        None => { return None; },
    };
    let translated_language = match read_optional_text(j, "translatedLanguage") {
        Some(t) => t,
        None => { return None; },
    };
    let publish_at = match read_optional_text(j, "publishAt") {
        Some(t) => t,
        None => { return None; },
    };
    let pages = match read_optional_int(j, "pages") {
        Some(t) => t,
        None => { return None; },
    };
    let external_url = match read_optional_text(j, "externalUrl") {
        Some(t) => t,
        None => { return None; },
    };
    Some(
        ChapterAttributes {
            chapter,
            title,
            volume,
            translated_language,
            publish_at,
            pages,
            external_url,
        },
    )
}

/// Reads a chapter.
pub fn decode_chapter(j: &Json) -> (r: Option<ChapterData>)
    ensures
        r.deep_view() == chapter_of(j.deep_view()),
{
    let id = match read_text(j, "id") {
        Some(s) => s,
        None => { return None; },
    };
    let attributes = match j.field("attributes") {
        Some(v) => match decode_chapter_attributes(v) {
            Some(a) => a,
            None => { return None; },
        },
        None => { return None; },
    };
    let relationships = match j.field("relationships") {
        Some(v) => match decode_relationships(v) {
            Some(a) => a,
            None => { return None; },
        },
        None => { return None; },
    };
    Some(ChapterData { id, attributes, relationships })
}

/// Reads a list of chapters.
pub fn decode_chapters(j: &Json) -> (r: Option<Vec<ChapterData>>)
    ensures
        r.deep_view() == chapters_of(j.deep_view()),
{
    match j.as_array() {
        Some(items) => {
            let ghost all = j.deep_view().items().unwrap();
            let mut out: Vec<ChapterData> = Vec::new();
            let mut i: usize = 0;
            while i < items.len()
                invariant
                    i <= items@.len(),
                    all == items.deep_view(),
                    j.deep_view() == JsonValue::Array(all),
                    forall|k: int| 0 <= k < i ==> chapter_of(#[trigger] all[k]) is Some,
                    out@.len() == i,
                    forall|k: int|
                        0 <= k < i ==> (#[trigger] out@[k]).deep_view() == chapter_of(
                            all[k],
                        ).unwrap(),
                decreases items@.len() - i,
            {
                match decode_chapter(&items[i]) {
                    Some(x) => {
                        out.push(x);
                    },
                    None => {
                        assert(chapter_of(all[i as int]) is None);
                        return None;
                    },
                }
                i += 1;
            }
            assert(out.deep_view() =~= chapters_of(j.deep_view()).unwrap());
            Some(out)
        },
        None => None,
    }
}

/// Reads one page of a chapter feed.
pub fn decode_chapter_feed(j: &Json) -> (r: Option<ChapterFeedResponse>)
    ensures
        r.deep_view() == chapter_feed_of(j.deep_view()),
{
    let result = match read_text(j, "result") {
        Some(s) => s,
        None => { return None; },
    };
    let data = match j.field("data") {
        Some(v) => match decode_chapters(v) {
            Some(a) => a,
            None => { return None; },
        },
        None => { return None; },
    };
    Some(ChapterFeedResponse { result, data })
}

/// Reads the answer to a handshake with a delivery node.
pub fn decode_at_home(j: &Json) -> (r: Option<AtHomeResponse>)
    ensures
        r.deep_view() == at_home_of(j.deep_view()),
{
    let result = match read_text(j, "result") {
        Some(s) => s,
        None => { return None; },
    };
    let base_url = match read_text(j, "baseUrl") {
        Some(s) => s,
        None => { return None; },
    };
    let chapter = match j.field("chapter") {
        Some(c) => {
            let hash = match read_text(c, "hash") {
                Some(s) => s,
                None => { return None; },
            };
            let data = match c.field("data") {
                Some(v) => match decode_texts(v) {
                    Some(a) => a,
                    None => { return None; },
                },
                None => { return None; },
            };
            AtHomeChapter { hash, data }
        },
        None => { return None; },
    };
    Some(AtHomeResponse { result, base_url, chapter })
}

} // verus!
