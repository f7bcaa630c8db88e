//! The rules by which the fields of a record are picked out of what the
//! catalog holds: which title is shown, which names are credited, which tags
//! are listed.

use vstd::prelude::*;
use vstd::string::*;
use crate::catalog::{Localized, LocalizedText, Relationship, RelationshipModel, Tag};
use crate::json::lookup;
use crate::text::same_text;
use crate::urls::{cover_url, cover_url_text};

verus! {

/// The text that is shown of a text in several languages: that in the
/// preferred language, else the English one, else the Japanese one, else that
/// of the first entry, else nothing.
pub open spec fn resolved_text(texts: Localized, preferred: Seq<char>) -> Seq<char> {
    match lookup(texts, preferred) {
        Some(t) => t,
        None => match lookup(texts, "en"@) {
            Some(t) => t,
            None => match lookup(texts, "ja"@) {
                Some(t) => t,
                None => if texts.len() > 0 {
                    texts[0].1
                } else {
                    Seq::empty()
                },
            },
        },
    }
}

/// The text of a language in a text in several languages.
pub fn find_text<'a>(texts: &'a LocalizedText, lang: &str) -> (r: Option<&'a String>)
    ensures
        r.deep_view() == lookup(texts.deep_view(), lang@),
{
    let ghost all = texts.deep_view();
    let mut i: usize = 0;
    assert(all.skip(0) =~= all);
    while i < texts.entries.len()
        invariant
            i <= texts.entries@.len(),
            all == texts.deep_view(),
            lookup(all, lang@) == lookup(all.skip(i as int), lang@),
        decreases texts.entries@.len() - i,
    {
        assert(all.skip(i as int)[0] == all[i as int]);
        if same_text(texts.entries[i].0.as_str(), lang) {
            assert(lookup(all.skip(i as int), lang@) == Some(all[i as int].1));
            return Some(&texts.entries[i].1);
        }
        proof {
            assert(all.skip(i as int).drop_first() =~= all.skip(i + 1));
        }
        i += 1;
    }
    None
}

/// Picks the text to show of a text in several languages.
pub fn extract_title(title_obj: &LocalizedText, preferred_lang: &str) -> (r: String)
    ensures
        r@ == resolved_text(title_obj.deep_view(), preferred_lang@),
{
    match find_text(title_obj, preferred_lang) {
        Some(t) => t.clone(),
        None => match find_text(title_obj, "en") {
            Some(t) => t.clone(),
            None => match find_text(title_obj, "ja") {
                Some(t) => t.clone(),
                None => if title_obj.entries.len() > 0 {
                    title_obj.entries[0].1.clone()
                } else {
                    String::new()
                },
            },
        },
    }
}

/// The file of the cover that a relationship names: it has to be of the type
/// `cover_art` and carry a file name.
pub open spec fn cover_file_of(rel: RelationshipModel) -> Option<Seq<char>> {
    if rel.rel_type == "cover_art"@ {
        match rel.attributes {
            Some(a) => a.file_name,
            None => None,
        }
    } else {
        None
    }
}

/// The file of the first cover that a list of relationships names.
pub open spec fn first_cover_file(rels: Seq<RelationshipModel>) -> Option<Seq<char>>
    decreases rels.len(),
{
    if rels.len() == 0 {
        None
    } else {
        match cover_file_of(rels[0]) {
            Some(f) => Some(f),
            None => first_cover_file(rels.drop_first()),
        }
    }
}

/// The address of a series' cover, where its relationships name one.
pub open spec fn cover_url_of(manga_id: Seq<char>, rels: Seq<RelationshipModel>) -> Option<
    Seq<char>,
> {
    match first_cover_file(rels) {
        Some(f) => Some(cover_url_text(manga_id, f)),
        None => None,
    }
}

/// Finds the address of a series' cover among its relationships.
pub fn extract_cover_url(manga_id: &str, relationships: &Vec<Relationship>) -> (r: Option<String>)
    ensures
        r.deep_view() == cover_url_of(manga_id@, relationships.deep_view()),
{
    let ghost all = relationships.deep_view();
    let mut i: usize = 0;
    assert(all.skip(0) =~= all);
    while i < relationships.len()
        invariant
            i <= relationships@.len(),
            all == relationships.deep_view(),
            first_cover_file(all) == first_cover_file(all.skip(i as int)),
        decreases relationships@.len() - i,
    {
        let rel = &relationships[i];
        assert(all.skip(i as int)[0] == rel.deep_view());
        if same_text(rel.rel_type.as_str(), "cover_art") {
            match &rel.attributes {
                Some(a) => match &a.file_name {
                    Some(f) => {
                        assert(first_cover_file(all.skip(i as int)) == Some(f@));
                        return Some(cover_url(manga_id, f.as_str()));
                    },
                    None => {},
                },
                None => {},
            }
        }
        proof {
            assert(cover_file_of(rel.deep_view()) is None);
            assert(all.skip(i as int).drop_first() =~= all.skip(i + 1));
        }
        i += 1;
    }
    None
}

/// A list of names with one more name, unless the list holds it already.
pub open spec fn add_distinct(names: Seq<Seq<char>>, name: Seq<char>) -> Seq<Seq<char>> {
    if names.contains(name) {
        names
    } else {
        names.push(name)
    }
}

/// The name that a relationship credits: it has to be of the type `author` or
/// `artist` and carry a name.
pub open spec fn credited_name(rel: RelationshipModel) -> Option<Seq<char>> {
    if rel.rel_type == "author"@ || rel.rel_type == "artist"@ {
        match rel.attributes {
            Some(a) => a.name,
            None => None,
        }
    } else {
        None
    }
}

/// The names that a list of relationships credits, each once, in the order in
/// which they first come.
pub open spec fn credited_names(rels: Seq<RelationshipModel>) -> Seq<Seq<char>>
    decreases rels.len(),
{
    if rels.len() == 0 {
        Seq::empty()
    } else {
        let before = credited_names(rels.drop_last());
        match credited_name(rels.last()) {
            Some(n) => add_distinct(before, n),
            None => before,
        }
    }
}

/// Whether a list of texts holds a text.
pub fn holds_text(list: &Vec<String>, text: &str) -> (r: bool)
    ensures
        r == list.deep_view().contains(text@),
{
    let mut i: usize = 0;
    while i < list.len()
        invariant
            i <= list@.len(),
            forall|k: int| 0 <= k < i ==> list.deep_view()[k] != text@,
        decreases list@.len() - i,
    {
        if same_text(list[i].as_str(), text) {
            assert(list.deep_view()[i as int] == text@);
            return true;
        }
        i += 1;
    }
    false
}

fn push_distinct(list: &mut Vec<String>, text: &str)
    ensures
        final(list).deep_view() == add_distinct(old(list).deep_view(), text@),
{
    if !holds_text(list, text) {
        let ghost before = list.deep_view();
        list.push(text.to_owned());
        assert(list.deep_view() =~= before.push(text@));
    }
}

/// Lists the authors and artists that the relationships of a series credit.
pub fn extract_authors(relationships: &Vec<Relationship>) -> (r: Vec<String>)
    ensures
        r.deep_view() == credited_names(relationships.deep_view()),
{
    let ghost all = relationships.deep_view();
    let mut authors: Vec<String> = Vec::new();
    let mut i: usize = 0;
    assert(authors.deep_view() =~= Seq::empty());
    while i < relationships.len()
        invariant
            i <= relationships@.len(),
            all == relationships.deep_view(),
            authors.deep_view() == credited_names(all.take(i as int)),
        decreases relationships@.len() - i,
    {
        let rel = &relationships[i];
        proof {
            assert(all.take(i + 1).drop_last() =~= all.take(i as int));
            assert(all.take(i + 1).last() == rel.deep_view());
        }
        if same_text(rel.rel_type.as_str(), "author") || same_text(rel.rel_type.as_str(), "artist") {
            match &rel.attributes {
                Some(a) => match &a.name {
                    Some(n) => {
                        push_distinct(&mut authors, n.as_str());
                    },
                    None => {},
                },
                None => {},
            }
        }
        i += 1;
    }
    proof {
        assert(all.take(i as int) =~= all);
    }
    authors
}

/// The names of a list of tags in a language, as far as they are not empty.
pub open spec fn tag_names(tags: Seq<Localized>, lang: Seq<char>) -> Seq<Seq<char>>
    decreases tags.len(),
{
    if tags.len() == 0 {
        Seq::empty()
    } else {
        let before = tag_names(tags.drop_last(), lang);
        let name = resolved_text(tags.last(), lang);
        if name.len() == 0 {
            before
        } else {
            before.push(name)
        }
    }
}

/// Lists the names of a series' tags in a language.
pub fn extract_tags(tags: &Vec<Tag>, lang: &str) -> (r: Vec<String>)
    ensures
        r.deep_view() == tag_names(tags.deep_view(), lang@),
{
    let ghost all = tags.deep_view();
    let mut names: Vec<String> = Vec::new();
    let mut i: usize = 0;
    assert(names.deep_view() =~= Seq::empty());
    while i < tags.len()
        invariant
            i <= tags@.len(),
            all == tags.deep_view(),
            names.deep_view() == tag_names(all.take(i as int), lang@),
        decreases tags@.len() - i,
    {
        proof {
            assert(all.take(i + 1).drop_last() =~= all.take(i as int));
            assert(all.take(i + 1).last() == tags@[i as int].deep_view());
        }
        let name = extract_title(&tags[i].name, lang);
        if !name.as_str().is_empty() {
            let ghost before = names.deep_view();
            names.push(name);
            assert(names.deep_view() =~= before.push(name@));
        }
        i += 1;
    }
    proof {
        assert(all.take(i as int) =~= all);
    }
    names
}

/// The label of a series' status: one of `Ongoing`, `Completed`, `Hiatus`,
/// `Cancelled` and `Unknown`.
pub open spec fn status_label(status: Option<Seq<char>>) -> Seq<char> {
    match status {
        Some(s) => if s == "ongoing"@ {
            "Ongoing"@
        } else if s == "completed"@ {
            "Completed"@
        } else if s == "hiatus"@ {
            "Hiatus"@
        } else if s == "cancelled"@ {
            "Cancelled"@
        } else {
            "Unknown"@
        },
        None => "Unknown"@,
    }
}

/// Gives the label of a series' status.
pub fn map_status(status: Option<&str>) -> (r: String)
    ensures
        r@ == status_label(status.deep_view()),
{
    match status {
        Some(s) => if same_text(s, "ongoing") {
            String::from_str("Ongoing")
        } else if same_text(s, "completed") {
            String::from_str("Completed")
        } else if same_text(s, "hiatus") {
            String::from_str("Hiatus")
        } else if same_text(s, "cancelled") {
            String::from_str("Cancelled")
        } else {
            String::from_str("Unknown")
        },
        None => String::from_str("Unknown"),
    }
}

/// A list of alternate titles with one more candidate, unless that is the
/// primary title or the list holds it already.
pub open spec fn add_alternate(titles: Seq<Seq<char>>, candidate: Seq<char>, primary: Seq<char>) -> Seq<
    Seq<char>,
> {
    if candidate == primary {
        titles
    } else {
        add_distinct(titles, candidate)
    }
}

/// A list of alternate titles with the texts of one more entry of the
/// catalog's, taken in order.
pub open spec fn add_alternates(titles: Seq<Seq<char>>, texts: Localized, primary: Seq<char>) -> Seq<
    Seq<char>,
>
    decreases texts.len(),
{
    if texts.len() == 0 {
        titles
    } else {
        add_alternate(add_alternates(titles, texts.drop_last(), primary), texts.last().1, primary)
    }
}

/// The alternate titles of a series: the texts of the catalog's entries in
/// order, without the primary title and each once.
pub open spec fn alternate_titles(alts: Seq<Localized>, primary: Seq<char>) -> Seq<Seq<char>>
    decreases alts.len(),
{
    if alts.len() == 0 {
        Seq::empty()
    } else {
        add_alternates(alternate_titles(alts.drop_last(), primary), alts.last(), primary)
    }
}

/// Lists the alternate titles of a series beside its primary title.
pub fn extract_alternate_titles(alt_titles: &Vec<LocalizedText>, title: &str) -> (r: Vec<String>)
    ensures
        r.deep_view() == alternate_titles(alt_titles.deep_view(), title@),
{
    let ghost all = alt_titles.deep_view();
    let mut titles: Vec<String> = Vec::new();
    let mut i: usize = 0;
    assert(titles.deep_view() =~= Seq::empty());
    while i < alt_titles.len()
        invariant
            i <= alt_titles@.len(),
            all == alt_titles.deep_view(),
            titles.deep_view() == alternate_titles(all.take(i as int), title@),
        decreases alt_titles@.len() - i,
    {
        let texts = &alt_titles[i];
        let ghost entries = texts.deep_view();
        let ghost start = titles.deep_view();
        proof {
            assert(all.take(i + 1).drop_last() =~= all.take(i as int));
            assert(all.take(i + 1).last() == entries);
            assert(entries.take(0) =~= Seq::empty());
        }
        let mut j: usize = 0;
        while j < texts.entries.len()
            invariant
                j <= texts.entries@.len(),
                entries == texts.deep_view(),
                titles.deep_view() == add_alternates(start, entries.take(j as int), title@),
            decreases texts.entries@.len() - j,
        {
            proof {
                assert(entries.take(j + 1).drop_last() =~= entries.take(j as int));
                assert(entries.take(j + 1).last() == entries[j as int]);
            }
            let candidate = &texts.entries[j].1;
            if !same_text(candidate.as_str(), title) {
                push_distinct(&mut titles, candidate.as_str());
            }
            j += 1;
        }
        proof {
            assert(entries.take(j as int) =~= entries);
        }
        i += 1;
    }
    proof {
        assert(all.take(i as int) =~= all);
    }
    titles
}

/// The name of the group that scanlated a chapter: that of the first
/// relationship of the type `scanlation_group`, where that carries a name.
pub open spec fn scanlator_of(rels: Seq<RelationshipModel>) -> Option<Seq<char>>
    decreases rels.len(),
{
    if rels.len() == 0 {
        None
    } else if rels[0].rel_type == "scanlation_group"@ {
        match rels[0].attributes {
            Some(a) => a.name,
            None => None,
        }
    } else {
        scanlator_of(rels.drop_first())
    }
}

/// Finds the name of the group that scanlated a chapter.
pub fn extract_scanlator(relationships: &Vec<Relationship>) -> (r: Option<String>)
    ensures
        r.deep_view() == scanlator_of(relationships.deep_view()),
{
    let ghost all = relationships.deep_view();
    let mut i: usize = 0;
    assert(all.skip(0) =~= all);
    while i < relationships.len()
        invariant
            i <= relationships@.len(),
            all == relationships.deep_view(),
            scanlator_of(all) == scanlator_of(all.skip(i as int)),
        decreases relationships@.len() - i,
    {
        let rel = &relationships[i];
        assert(all.skip(i as int)[0] == rel.deep_view());
        if same_text(rel.rel_type.as_str(), "scanlation_group") {
            return match &rel.attributes {
                Some(a) => match &a.name {
                    Some(n) => Some(n.clone()),
                    None => None,
                },
                None => None,
            };
        }
        proof {
            assert(all.skip(i as int).drop_first() =~= all.skip(i + 1));
        }
        i += 1;
    }
    None
}

/// The place of the first entry of a language in a text in several
/// languages.
pub open spec fn position(texts: Localized, lang: Seq<char>) -> Option<int>
    decreases texts.len(),
{
    if texts.len() == 0 {
        None
    } else if texts[0].0 == lang {
        Some(0int)
    } else {
        match position(texts.drop_first(), lang) {
            Some(i) => Some(i + 1),
            None => None,
        }
    }
}

/// The place of the entry whose text is shown: the first entry in the
/// preferred language, else the first English one, else the first Japanese
/// one, else the first entry.
pub open spec fn picked_entry(texts: Localized, preferred: Seq<char>) -> int {
    match position(texts, preferred) {
        Some(i) => i,
        None => match position(texts, "en"@) {
            Some(i) => i,
            None => match position(texts, "ja"@) {
                Some(i) => i,
                None => 0,
            },
        },
    }
}

proof fn lemma_position(texts: Localized, lang: Seq<char>)
    ensures
        match position(texts, lang) {
            Some(i) => 0 <= i < texts.len() && lookup(texts, lang) == Some(texts[i].1),
            None => lookup(texts, lang) is None,
        },
    decreases texts.len(),
{
    if texts.len() > 0 && texts[0].0 != lang {
        lemma_position(texts.drop_first(), lang);
    }
}

/// Of a text in several languages that has an entry, the text shown is that
/// of the picked entry.
pub proof fn lemma_resolved_text_is_the_picked_entry(texts: Localized, preferred: Seq<char>)
    requires
        texts.len() > 0,
    ensures
        0 <= picked_entry(texts, preferred) < texts.len(),
        resolved_text(texts, preferred) == texts[picked_entry(texts, preferred)].1,
{
    lemma_position(texts, preferred);
    lemma_position(texts, "en"@);
    lemma_position(texts, "ja"@);
}

/// Of a text in several languages that has an entry, the text shown is not
/// empty, unless the text of the picked entry is itself empty.
pub proof fn lemma_resolved_text_is_not_empty(texts: Localized, preferred: Seq<char>)
    requires
        texts.len() > 0,
        texts[picked_entry(texts, preferred)].1.len() > 0,
    ensures
        resolved_text(texts, preferred).len() > 0,
{
    lemma_resolved_text_is_the_picked_entry(texts, preferred);
}

/// Of a text in several languages that has no entry, nothing is shown.
pub proof fn lemma_resolved_text_of_no_entry(texts: Localized, preferred: Seq<char>)
    requires
        texts.len() == 0,
    ensures
        resolved_text(texts, preferred) == Seq::<char>::empty(),
{
}

proof fn lemma_add_distinct(names: Seq<Seq<char>>, name: Seq<char>, other: Seq<char>)
    requires
        names.no_duplicates(),
    ensures
        add_distinct(names, name).no_duplicates(),
        add_distinct(names, name).contains(name),
        add_distinct(names, name).contains(other) <==> names.contains(other) || other == name,
{
    let after = add_distinct(names, name);
    if !names.contains(name) {
        assert(after[names.len() as int] == name);
        assert forall|i: int, j: int| 0 <= i < after.len() && 0 <= j < after.len() && i != j implies after[i]
            != after[j] by {
            if i < names.len() && j < names.len() {
                assert(names[i] != names[j]);
            } else if i < names.len() {
                assert(names.contains(names[i]));
            } else {
                assert(names.contains(names[j]));
            }
        }
        if names.contains(other) {
            let k = choose|k: int| 0 <= k < names.len() && names[k] == other;
            assert(after[k] == other);
        }
    }
}

proof fn lemma_add_alternates(titles: Seq<Seq<char>>, texts: Localized, primary: Seq<char>)
    requires
        titles.no_duplicates(),
        !titles.contains(primary),
    ensures
        add_alternates(titles, texts, primary).no_duplicates(),
        !add_alternates(titles, texts, primary).contains(primary),
    decreases texts.len(),
{
    if texts.len() > 0 {
        lemma_add_alternates(titles, texts.drop_last(), primary);
        lemma_add_distinct(add_alternates(titles, texts.drop_last(), primary), texts.last().1, primary);
    }
}

/// The alternate titles of a series never hold its primary title, and hold
/// no title twice.
pub proof fn lemma_alternate_titles_are_distinct(alts: Seq<Localized>, primary: Seq<char>)
    ensures
        !alternate_titles(alts, primary).contains(primary),
        alternate_titles(alts, primary).no_duplicates(),
    decreases alts.len(),
{
    if alts.len() > 0 {
        lemma_alternate_titles_are_distinct(alts.drop_last(), primary);
        lemma_add_alternates(alternate_titles(alts.drop_last(), primary), alts.last(), primary);
    }
}

/// The credited names of a series hold no name twice.
pub proof fn lemma_credited_names_are_distinct(rels: Seq<RelationshipModel>)
    ensures
        credited_names(rels).no_duplicates(),
    decreases rels.len(),
{
    if rels.len() > 0 {
        lemma_credited_names_are_distinct(rels.drop_last());
        match credited_name(rels.last()) {
            Some(n) => {
                lemma_add_distinct(credited_names(rels.drop_last()), n, n);
            },
            None => {},
        }
    }
}

/// The label of a status is one of five.
pub proof fn lemma_status_labels(status: Option<Seq<char>>)
    ensures
        status_label(status) == "Ongoing"@ || status_label(status) == "Completed"@ || status_label(
            status,
        ) == "Hiatus"@ || status_label(status) == "Cancelled"@ || status_label(status)
            == "Unknown"@,
{
}

} // verus!
