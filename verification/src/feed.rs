//! The chapters of a series, read page by page from the catalog's feed.
//!
//! The feed is a state machine. Its host asks it for the next address, fetches
//! that, and hands the answer's text in, until the feed asks for nothing more.
//! The feed ends with the first answer that is no good or holds no chapter,
//! and at the latest when its offset reaches the ceiling. What it has gathered
//! until then stays.

use vstd::prelude::*;
use vstd::string::*;
use crate::catalog::{ChapterData, ChapterFeedModel, ChapterFeedResponse, ChapterModel};
use crate::decode::{chapter_feed_of, decode_chapter_feed};
use crate::extract::{extract_scanlator, scanlator_of};
use crate::json::{json_document, parse_json, Json, JsonValue};
use crate::records::{ChapterEntryModel, ChapterResult};
use crate::text::{copy_text, same_text};
use crate::urls::{
    chapter_feed_url, chapter_feed_url_text, chapter_page_text, chapter_page_url, FEED_CEILING,
    FEED_PAGE_SIZE,
};

verus! {

/// The record of a chapter of the series `series_id`.
pub open spec fn chapter_entry(series_id: Seq<char>, c: ChapterModel) -> ChapterEntryModel {
    ChapterEntryModel {
        id: c.id,
        series_id: series_id,
        number: c.attributes.chapter,
        title: c.attributes.title,
        volume: c.attributes.volume,
        language: c.attributes.translated_language,
        scanlator: scanlator_of(c.relationships),
        url: chapter_page_text(c.id),
        published_at: c.attributes.publish_at,
        page_count: c.attributes.pages,
    }
}

/// The records of the chapters of one page of a feed, in order.
pub open spec fn chapter_entries(series_id: Seq<char>, data: Seq<ChapterModel>) -> Seq<
    ChapterEntryModel,
> {
    Seq::new(data.len(), |i: int| chapter_entry(series_id, data[i]))
}

/// Makes the record of a chapter.
pub fn chapter_result(series_id: &str, chapter: &ChapterData) -> (r: ChapterResult)
    ensures
        r.deep_view() == chapter_entry(series_id@, chapter.deep_view()),
{
    ChapterResult {
        id: chapter.id.clone(),
        series_id: series_id.to_owned(),
        number: copy_text(&chapter.attributes.chapter),
        title: copy_text(&chapter.attributes.title),
        volume: copy_text(&chapter.attributes.volume),
        language: copy_text(&chapter.attributes.translated_language),
        scanlator: extract_scanlator(&chapter.relationships),
        url: chapter_page_url(chapter.id.as_str()),
        published_at: copy_text(&chapter.attributes.publish_at),
        page_count: chapter.attributes.pages,
    }
}

/// Makes the records of the chapters of one page of a feed.
pub fn chapter_results(series_id: &str, data: &Vec<ChapterData>) -> (r: Vec<ChapterResult>)
    ensures
        r.deep_view() == chapter_entries(series_id@, data.deep_view()),
{
    let ghost all = data.deep_view();
    let mut out: Vec<ChapterResult> = Vec::new();
    let mut i: usize = 0;
    while i < data.len()
        invariant
            i <= data@.len(),
            all == data.deep_view(),
            out@.len() == i,
            forall|k: int|
                0 <= k < i ==> (#[trigger] out@[k]).deep_view() == chapter_entry(series_id@, all[k]),
        decreases data@.len() - i,
    {
        out.push(chapter_result(series_id, &data[i]));
        i += 1;
    }
    assert(out.deep_view() =~= chapter_entries(series_id@, all));
    out
}

/// The state of a feed: the series, the offset of the page to ask for next,
/// the chapters gathered so far, and whether the feed has ended.
pub struct FeedModel {
    pub series_id: Seq<char>,
    pub offset: int,
    pub chapters: Seq<ChapterEntryModel>,
    pub finished: bool,
}

/// A feed before its first page.
pub open spec fn feed_start(series_id: Seq<char>) -> FeedModel {
    FeedModel { series_id: series_id, offset: 0, chapters: Seq::empty(), finished: false }
}

/// The address that a feed asks for next; `None` where it has ended.
pub open spec fn feed_request(state: FeedModel) -> Option<Seq<char>> {
    if state.finished {
        None
    } else {
        Some(chapter_feed_url_text(state.series_id, state.offset))
    }
}

/// A feed that has ended where it stood.
pub open spec fn feed_ended(state: FeedModel) -> FeedModel {
    FeedModel {
        series_id: state.series_id,
        offset: state.offset,
        chapters: state.chapters,
        finished: true,
    }
}

/// The state of a feed after one more page, `None` standing for an answer
/// that has not the shape of a page. A page whose `result` is `ok` and that
/// holds chapters adds them and moves the offset on by a page's size; the
/// feed then ends where the offset has reached the ceiling. Any other page
/// ends the feed. A feed that has ended takes nothing more in.
pub open spec fn feed_accept(state: FeedModel, page: Option<ChapterFeedModel>) -> FeedModel {
    if state.finished {
        state
    } else {
        match page {
            Some(p) => if p.result == "ok"@ && p.data.len() > 0 {
                FeedModel {
                    series_id: state.series_id,
                    offset: state.offset + FEED_PAGE_SIZE,
                    chapters: state.chapters + chapter_entries(state.series_id, p.data),
                    finished: state.offset + FEED_PAGE_SIZE >= FEED_CEILING,
                }
            } else {
                feed_ended(state)
            },
            None => feed_ended(state),
        }
    }
}

/// The state of a feed after one more answer read as JSON, `None` standing
/// for an answer that is no JSON.
pub open spec fn feed_step(state: FeedModel, doc: Option<JsonValue>) -> FeedModel {
    feed_accept(
        state,
        match doc {
            Some(j) => chapter_feed_of(j),
            None => None,
        },
    )
}

/// The state of a feed of the series `series_id` after the answers `docs`,
/// taken in order.
pub open spec fn feed_run(series_id: Seq<char>, docs: Seq<Option<JsonValue>>) -> FeedModel
    decreases docs.len(),
{
    if docs.len() == 0 {
        feed_start(series_id)
    } else {
        feed_step(feed_run(series_id, docs.drop_last()), docs.last())
    }
}

/// What `serde_json` reads from each of a list of texts.
pub open spec fn documents(texts: Seq<Seq<char>>) -> Seq<Option<JsonValue>> {
    Seq::new(texts.len(), |i: int| json_document(texts[i]))
}

/// A feed of a series' chapters that is being read.
pub struct ChapterFeed {
    series_id: String,
    offset: u32,
    chapters: Vec<ChapterResult>,
    finished: bool,
}

impl DeepView for ChapterFeed {
    type V = FeedModel;

    closed spec fn deep_view(&self) -> FeedModel {
        FeedModel {
            series_id: self.series_id@,
            offset: self.offset as int,
            chapters: self.chapters.deep_view(),
            finished: self.finished,
        }
    }
}

impl ChapterFeed {
    #[verifier::type_invariant]
    spec fn below_ceiling(self) -> bool {
        !self.finished ==> self.offset < FEED_CEILING
    }

    /// Starts the feed of a series.
    pub fn new(series_id: &str) -> (feed: ChapterFeed)
        ensures
            feed.deep_view() == feed_start(series_id@),
    {
        let chapters: Vec<ChapterResult> = Vec::new();
        assert(chapters.deep_view() =~= Seq::<ChapterEntryModel>::empty());
        ChapterFeed { series_id: series_id.to_owned(), offset: 0, chapters, finished: false }
    }

    /// Whether the feed has ended.
    pub fn is_finished(&self) -> (r: bool)
        ensures
            r == self.deep_view().finished,
    {
        self.finished
    }

    /// The offset of the page that the feed asks for next.
    pub fn offset(&self) -> (r: u32)
        ensures
            r == self.deep_view().offset,
            !self.deep_view().finished ==> r < FEED_CEILING,
    {
        proof {
            use_type_invariant(self);
        }
        self.offset
    }

    /// The address to fetch next; `None` where the feed has ended. The offset
    /// in an address is always below the ceiling.
    pub fn next_request(&self) -> (r: Option<String>)
        ensures
            r.deep_view() == feed_request(self.deep_view()),
            r is Some ==> 0 <= self.deep_view().offset < FEED_CEILING,
    {
        proof {
            use_type_invariant(self);
        }
        if self.finished {
            None
        } else {
            Some(chapter_feed_url(self.series_id.as_str(), self.offset))
        }
    }

    /// Takes in one page of the feed, `None` standing for an answer that has
    /// not the shape of a page.
    pub fn accept_page(&mut self, page: Option<&ChapterFeedResponse>)
        ensures
            final(self).deep_view() == feed_accept(old(self).deep_view(), page.deep_view()),
    {
        proof {
            use_type_invariant(&*self);
        }
        if self.finished {
            return;
        }
        match page {
            Some(p) => {
                if same_text(p.result.as_str(), "ok") && p.data.len() > 0 {
                    let ghost before = self.chapters.deep_view();
                    let mut entries = chapter_results(self.series_id.as_str(), &p.data);
                    let ghost added = entries.deep_view();
                    let mut gathered: Vec<ChapterResult> = Vec::new();
                    std::mem::swap(&mut self.chapters, &mut gathered);
                    gathered.append(&mut entries);
                    std::mem::swap(&mut self.chapters, &mut gathered);
                    assert(self.chapters.deep_view() =~= before + added);
                    let next: u32 = self.offset + FEED_PAGE_SIZE;
                    if next >= FEED_CEILING {
                        self.finished = true;
                    }
                    self.offset = next;
                } else {
                    self.finished = true;
                }
            },
            None => {
                self.finished = true;
            },
        }
    }

    /// Takes in one answer read as JSON, `None` standing for an answer that
    /// is no JSON.
    pub fn accept_document(&mut self, doc: Option<&Json>)
        ensures
            final(self).deep_view() == feed_step(old(self).deep_view(), doc.deep_view()),
    {
        match doc {
            Some(j) => {
                let page = decode_chapter_feed(j);
                self.accept_page(page.as_ref());
            },
            None => {
                self.accept_page(None);
            },
        }
    }

    /// Takes in the text of the answer to the last request. An answer that
    /// could not be fetched is handed in as the empty text.
    pub fn accept(&mut self, response_text: &str)
        ensures
            final(self).deep_view() == feed_step(
                old(self).deep_view(),
                json_document(response_text@),
            ),
    {
        let doc = parse_json(response_text);
        self.accept_document(doc.as_ref());
    }

    /// The chapters gathered so far.
    pub fn into_chapters(self) -> (r: Vec<ChapterResult>)
        ensures
            r.deep_view() == self.deep_view().chapters,
    {
        self.chapters
    }
}

/// The record of a chapter carries the id that the catalog gave the chapter,
/// and the id of the series that the feed was started for.
pub proof fn lemma_chapters_keep_their_id(series_id: Seq<char>, c: ChapterModel)
    ensures
        chapter_entry(series_id, c).id == c.id,
        chapter_entry(series_id, c).series_id == series_id,
        chapter_entry(series_id, c).url == chapter_page_text(c.id),
{
}

/// A feed that has ended takes nothing more in.
pub proof fn lemma_finished_feed_is_final(state: FeedModel, page: Option<ChapterFeedModel>)
    requires
        state.finished,
    ensures
        feed_accept(state, page) == state,
        feed_request(feed_accept(state, page)) is None,
{
}

/// The first page that holds no chapter ends the feed: nothing is added and
/// nothing more is asked for.
pub proof fn lemma_feed_halts_on_empty_page(state: FeedModel, page: ChapterFeedModel)
    requires
        page.data.len() == 0,
    ensures
        feed_accept(state, Some(page)).finished,
        feed_accept(state, Some(page)).chapters == state.chapters,
        feed_request(feed_accept(state, Some(page))) is None,
{
}

/// An answer that is no JSON, or has not the shape of a page, ends a feed
/// that was being read; the chapters gathered before stay.
pub proof fn lemma_bad_answer_ends_feed(state: FeedModel, doc: Option<JsonValue>)
    requires
        doc matches Some(j) ==> chapter_feed_of(j) is None,
    ensures
        feed_step(state, doc).finished,
        feed_step(state, doc).chapters == state.chapters,
        feed_request(feed_step(state, doc)) is None,
{
}

/// Whatever the answers are, a feed never asks for a page at or past the
/// ceiling: while it has not ended, its offset is a multiple of the page size
/// below the ceiling.
pub proof fn lemma_feed_stays_below_ceiling(series_id: Seq<char>, docs: Seq<Option<JsonValue>>)
    ensures
        0 <= feed_run(series_id, docs).offset <= FEED_CEILING,
        feed_run(series_id, docs).offset % (FEED_PAGE_SIZE as int) == 0,
        feed_run(series_id, docs).series_id == series_id,
        !feed_run(series_id, docs).finished ==> feed_run(series_id, docs).offset < FEED_CEILING,
        feed_request(feed_run(series_id, docs)) is Some ==> feed_run(series_id, docs).offset
            < FEED_CEILING,
    decreases docs.len(),
{
    if docs.len() > 0 {
        lemma_feed_stays_below_ceiling(series_id, docs.drop_last());
    }
}

/// Answers that come after the feed has ended change nothing.
pub proof fn lemma_feed_run_after_end(
    series_id: Seq<char>,
    docs: Seq<Option<JsonValue>>,
    taken: int,
)
    requires
        0 <= taken <= docs.len(),
        feed_run(series_id, docs.take(taken)).finished,
    ensures
        feed_run(series_id, docs) == feed_run(series_id, docs.take(taken)),
    decreases docs.len() - taken,
{
    if taken < docs.len() {
        assert(docs.take(taken + 1).drop_last() =~= docs.take(taken));
        lemma_feed_run_after_end(series_id, docs, taken + 1);
    } else {
        assert(docs.take(taken) =~= docs);
    }
}

/// Gathers the chapters of a series from the texts of the catalog's answers
/// to the feed's requests, in the order of the requests. Answers past the
/// feed's end are not read.
pub fn get_chapters(series_id: &str, responses: &Vec<String>) -> (r: Vec<ChapterResult>)
    ensures
        r.deep_view() == feed_run(series_id@, documents(responses.deep_view())).chapters,
{
    let ghost docs = documents(responses.deep_view());
    let mut feed = ChapterFeed::new(series_id);
    let mut i: usize = 0;
    proof {
        assert(docs.take(0) =~= Seq::empty());
    }
    while i < responses.len() && !feed.is_finished()
        invariant
            i <= responses@.len(),
            docs == documents(responses.deep_view()),
            feed.deep_view() == feed_run(series_id@, docs.take(i as int)),
        decreases responses@.len() - i,
    {
        proof {
            assert(docs.take(i + 1).drop_last() =~= docs.take(i as int));
            assert(docs.take(i + 1).last() == json_document(responses@[i as int]@));
        }
        feed.accept(responses[i].as_str());
        i += 1;
    }
    proof {
        if i < responses.len() {
            lemma_feed_run_after_end(series_id@, docs, i as int);
        } else {
            assert(docs.take(i as int) =~= docs);
        }
    }
    feed.into_chapters()
}

} // verus!
