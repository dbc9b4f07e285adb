//! From the loosely typed answers of the remote service to strict records.
//!
//! A raw record holds every field as the service may send it: present or
//! absent, a number of any size. Decoding insists on the title and the page
//! identifier, and on the marker of each outline entry, and names the first
//! of them that is missing or does not fit. Any other absent text becomes
//! the empty text.

use vstd::prelude::*;
use crate::error::{Error, Field};
use crate::ui::models::{Article, ArticleView};
use crate::ui::models::table_of_contents::{
    Item, ItemView, Table, TableView, item_view, items_view, lemma_sub_items_view,
};
use crate::wiki::markup::{plain_text, to_plain_text};
use crate::wiki::search::{PreviewView, SearchResultPreview};

verus! {

/// One entry of a search answer, as it came.
pub struct RawSearchEntry {
    pub page_id: Option<i64>,
    pub title: Option<String>,
    pub snippet: Option<String>,
}

/// One outline entry of an article answer, as it came.
pub struct RawItem {
    pub number: Option<i64>,
    pub text: Option<String>,
    pub sub_items: Option<Vec<RawItem>>,
}

/// An article answer, as it came. `text` is the body in the service's markup.
pub struct RawArticle {
    pub page_id: Option<i64>,
    pub title: Option<String>,
    pub text: Option<String>,
    pub outline: Vec<RawItem>,
}

/// A number is usable when it is there and fits the identifier type.
pub open spec fn usable(n: Option<i64>) -> bool {
    n is Some && i32::MIN <= n->0 <= i32::MAX
}

/// The characters of a text that may be absent.
pub open spec fn text_or_empty(t: Option<String>) -> Seq<char> {
    match t {
        Some(s) => s@,
        None => Seq::empty(),
    }
}

/// The first field that makes a search entry unusable, if any.
pub open spec fn entry_defect(raw: RawSearchEntry) -> Option<Field> {
    if raw.title is None {
        Some(Field::Title)
    } else if !usable(raw.page_id) {
        Some(Field::PageId)
    } else {
        None
    }
}

/// What a usable search entry decodes to.
pub open spec fn decoded_entry(raw: RawSearchEntry) -> PreviewView {
    PreviewView {
        page_id: raw.page_id->0 as int,
        title: text_or_empty(raw.title),
        snippet: text_or_empty(raw.snippet),
    }
}

/// Narrows a raw number to an identifier.
pub fn narrow(n: Option<i64>) -> (r: Option<i32>)
    ensures
        r is Some <==> usable(n),
        r is Some ==> r->0 == n->0,
{
    match n {
        Some(v) => {
            if -2147483648 <= v && v <= 2147483647 {
                Some(v as i32)
            } else {
                None
            }
        },
        None => None,
    }
}

/// Copies a text that may be absent; an absent one becomes empty.
pub fn owned_or_empty(t: &Option<String>) -> (s: String)
    ensures
        s@ == text_or_empty(*t),
{
    match t {
        Some(s) => s.clone(),
        None => String::new(),
    }
}

/// Decodes one search entry.
pub fn decode_entry(raw: &RawSearchEntry) -> (r: Result<SearchResultPreview, Error>)
    ensures
        match r {
            Ok(entry) => entry_defect(*raw) is None && entry@ == decoded_entry(*raw),
            Err(e) => entry_defect(*raw) is Some && e == Error::DecodeError(entry_defect(*raw)->0),
        },
{
    let title = match &raw.title {
        Some(t) => t.clone(),
        None => { return Err(Error::DecodeError(Field::Title)); },
    };
    let page_id = match narrow(raw.page_id) {
        Some(id) => id,
        None => { return Err(Error::DecodeError(Field::PageId)); },
    };
    Ok(SearchResultPreview { page_id, title, snippet: owned_or_empty(&raw.snippet) })
}

/// True when `r` is what the raw search answer decodes to. A usable answer
/// gives one entry for each raw entry, in the order of the answer. An
/// answer with an unusable entry gives the field that the first such entry
/// lacks.
pub open spec fn is_decoded_search(
    raw: Seq<RawSearchEntry>,
    r: Result<Vec<SearchResultPreview>, Error>,
) -> bool {
    match r {
        Ok(entries) => {
            &&& entries@.len() == raw.len()
            &&& forall|i: int| 0 <= i < raw.len() ==> entry_defect(#[trigger] raw[i]) is None
            &&& forall|i: int|
                0 <= i < raw.len() ==> (#[trigger] entries@[i])@ == decoded_entry(raw[i])
        },
        Err(e) => exists|i: int|
            {
                &&& 0 <= i < raw.len()
                &&& entry_defect(#[trigger] raw[i]) is Some
                &&& e == Error::DecodeError(entry_defect(raw[i])->0)
                &&& forall|k: int| 0 <= k < i ==> entry_defect(#[trigger] raw[k]) is None
            },
    }
}

/// Decodes a search answer: one entry for each raw entry, in the order of
/// the answer. The first unusable entry fails the whole answer, with the
/// field that it lacks.
pub fn decode_search(raw: &Vec<RawSearchEntry>) -> (r: Result<Vec<SearchResultPreview>, Error>)
    ensures
        is_decoded_search(raw@, r),
{
    let mut entries: Vec<SearchResultPreview> = Vec::new();
    let mut i: usize = 0;
    while i < raw.len()
        invariant
            i <= raw.len(),
            entries@.len() == i,
            forall|k: int| 0 <= k < i ==> entry_defect(#[trigger] raw@[k]) is None,
            forall|k: int| 0 <= k < i ==> (#[trigger] entries@[k])@ == decoded_entry(raw@[k]),
        decreases raw.len() - i,
    {
        match decode_entry(&raw[i]) {
            Ok(entry) => {
                entries.push(entry);
            },
            Err(e) => {
                assert(entry_defect(raw@[i as int]) is Some);
                return Err(e);
            },
        }
        i += 1;
    }
    Ok(entries)
}

/// An outline entry is sound when its marker is usable and every entry
/// below it is sound.
pub open spec fn item_sound(raw: RawItem) -> bool
    decreases raw,
{
    &&& usable(raw.number)
    &&& match raw.sub_items {
        None => true,
        Some(v) => forall|i: int| 0 <= i < v@.len() ==> item_sound(#[trigger] v[i]),
    }
}

/// A list of outline entries is sound when each of them is.
pub open spec fn items_sound(raw: Seq<RawItem>) -> bool {
    forall|i: int| 0 <= i < raw.len() ==> item_sound(#[trigger] raw[i])
}

/// What a sound outline entry decodes to. A leaf stays a leaf, and an empty
/// list of sub-entries stays an empty list.
pub open spec fn decoded_item(raw: RawItem) -> ItemView
    decreases raw,
{
    ItemView {
        number: raw.number->0 as int,
        text: text_or_empty(raw.text),
        sub_items: match raw.sub_items {
            None => None,
            Some(v) => Some(
                Seq::new(
                    v@.len(),
                    |i: int|
                        if 0 <= i < v@.len() {
                            decoded_item(v[i])
                        } else {
                            arbitrary()
                        },
                ),
            ),
        },
    }
}

/// What a list of sound outline entries decodes to, in order.
pub open spec fn decoded_items(raw: Seq<RawItem>) -> Seq<ItemView> {
    Seq::new(raw.len(), |i: int| decoded_item(raw[i]))
}

/// What lies below a decoded entry is the decoded list of its sub-entries.
pub proof fn lemma_decoded_sub_items(raw: RawItem)
    ensures
        decoded_item(raw).sub_items == match raw.sub_items {
            None => None::<Seq<ItemView>>,
            Some(v) => Some(decoded_items(v@)),
        },
        item_sound(raw) <==> usable(raw.number) && match raw.sub_items {
            None => true,
            Some(v) => items_sound(v@),
        },
{
    match raw.sub_items {
        None => {},
        Some(v) => {
            assert(decoded_item(raw).sub_items->0 =~= decoded_items(v@));
        },
    }
}

/// Decodes a list of outline entries, each with everything below it.
pub fn decode_items(raw: &Vec<RawItem>) -> (r: Result<Vec<Item>, Error>)
    ensures
        match r {
            Ok(items) => items_sound(raw@) && items_view(items@) == decoded_items(raw@),
            Err(e) => !items_sound(raw@) && e == Error::DecodeError(Field::Number),
        },
    decreases raw, 0int,
{
    let mut items: Vec<Item> = Vec::new();
    let mut i: usize = 0;
    while i < raw.len()
        invariant
            i <= raw.len(),
            items@.len() == i,
            forall|k: int| 0 <= k < i ==> item_sound(#[trigger] raw@[k]),
            forall|k: int| 0 <= k < i ==> item_view(#[trigger] items@[k]) == decoded_item(raw@[k]),
        decreases raw.len() - i,
    {
        match decode_item(&raw[i]) {
            Ok(item) => {
                items.push(item);
            },
            Err(e) => {
                assert(!item_sound(raw@[i as int]));
                return Err(e);
            },
        }
        i += 1;
    }
    assert(items_view(items@) =~= decoded_items(raw@));
    Ok(items)
}

/// Decodes one outline entry with everything below it.
pub fn decode_item(raw: &RawItem) -> (r: Result<Item, Error>)
    ensures
        match r {
            Ok(item) => item_sound(*raw) && item@ == decoded_item(*raw),
            Err(e) => !item_sound(*raw) && e == Error::DecodeError(Field::Number),
        },
    decreases raw, 1int,
{
    proof {
        lemma_decoded_sub_items(*raw);
    }
    let number = match narrow(raw.number) {
        Some(n) => n,
        None => { return Err(Error::DecodeError(Field::Number)); },
    };
    let sub_items = match &raw.sub_items {
        None => None,
        Some(v) => match decode_items(v) {
            Ok(items) => Some(items),
            Err(e) => { return Err(e); },
        },
    };
    let item = Item { number, text: owned_or_empty(&raw.text), sub_items };
    proof {
        lemma_sub_items_view(item);
    }
    Ok(item)
}

/// The first field that makes an article answer unusable, if any: the
/// title, then the page identifier, then the markers of the outline.
pub open spec fn article_defect(raw: RawArticle) -> Option<Field> {
    if raw.title is None {
        Some(Field::Title)
    } else if !usable(raw.page_id) {
        Some(Field::PageId)
    } else if !items_sound(raw.outline@) {
        Some(Field::Number)
    } else {
        None
    }
}

/// The article that a usable answer decodes to: its body is the plain text
/// of the raw body, and empty where the answer has none.
pub open spec fn decoded_article(raw: RawArticle) -> ArticleView {
    ArticleView {
        page_id: raw.page_id->0 as int,
        title: text_or_empty(raw.title),
        content: plain_text(text_or_empty(raw.text)),
    }
}

/// The outline that a usable answer decodes to, under the article's title.
pub open spec fn decoded_table(raw: RawArticle) -> TableView {
    TableView { title: text_or_empty(raw.title), items: decoded_items(raw.outline@) }
}

/// True when `r` is what the raw article answer decodes to.
pub open spec fn is_decoded_article(raw: RawArticle, r: Result<(Article, Table), Error>) -> bool {
    match r {
        Ok((article, table)) => {
            &&& article_defect(raw) is None
            &&& article@ == decoded_article(raw)
            &&& table@ == decoded_table(raw)
        },
        Err(e) => article_defect(raw) is Some && e == Error::DecodeError(article_defect(raw)->0),
    }
}

/// Decodes an article answer into the article and its outline. An answer
/// that lacks a required field fails with that field and gives nothing.
pub fn decode_article(raw: &RawArticle) -> (r: Result<(Article, Table), Error>)
    ensures
        is_decoded_article(*raw, r),
{
    let title = match &raw.title {
        Some(t) => t.clone(),
        None => { return Err(Error::DecodeError(Field::Title)); },
    };
    let page_id = match narrow(raw.page_id) {
        Some(id) => id,
        None => { return Err(Error::DecodeError(Field::PageId)); },
    };
    let items = match decode_items(&raw.outline) {
        Ok(items) => items,
        Err(e) => { return Err(e); },
    };
    let body = owned_or_empty(&raw.text);
    let content = to_plain_text(body.as_str());
    let table = Table { title: title.clone(), items };
    Ok((Article { page_id, title, content }, table))
}

/// An article answer without a title fails on the title, whatever else it
/// holds or lacks.
pub proof fn lemma_missing_title_fails(raw: RawArticle, r: Result<(Article, Table), Error>)
    requires
        raw.title is None,
        is_decoded_article(raw, r),
    ensures
        r matches Err(e) && e == Error::DecodeError(Field::Title),
        Field::Title.name_spec() == "title"@,
{
}

/// A search entry without an excerpt is usable, if title and identifier
/// are, and decodes to an entry with the empty excerpt.
pub proof fn lemma_missing_snippet_is_empty(raw: RawSearchEntry)
    requires
        raw.snippet is None,
    ensures
        entry_defect(raw) is None <==> raw.title is Some && usable(raw.page_id),
        decoded_entry(raw).snippet == Seq::<char>::empty(),
{
}

} // verus!
