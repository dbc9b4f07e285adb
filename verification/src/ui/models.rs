//! The records of the document model.

use vstd::prelude::*;
use vstd::std_specs::convert::FromSpecImpl;
use crate::wiki::search::{PreviewView, SearchResultPreview};

pub mod table_of_contents;

verus! {

/// What is known of an article before its body has been fetched.
pub struct ArticleResultPreview {
    pub page_id: i32,
    pub snippet: String,
    pub title: String,
}

/// An article whose body is plain text, ready for display.
pub struct Article {
    pub page_id: i32,
    pub title: String,
    pub content: String,
}

/// What an article says: an identifier and two texts.
pub ghost struct ArticleView {
    pub page_id: int,
    pub title: Seq<char>,
    pub content: Seq<char>,
}

impl View for ArticleResultPreview {
    type V = PreviewView;

    open spec fn view(&self) -> PreviewView {
        PreviewView { page_id: self.page_id as int, title: self.title@, snippet: self.snippet@ }
    }
}

impl View for Article {
    type V = ArticleView;

    open spec fn view(&self) -> ArticleView {
        ArticleView { page_id: self.page_id as int, title: self.title@, content: self.content@ }
    }
}

impl ArticleResultPreview {
    /// The preview of a page of which nothing but the identifier is known.
    pub open spec fn bare(page_id: i32) -> PreviewView {
        PreviewView { page_id: page_id as int, title: Seq::empty(), snippet: Seq::empty() }
    }
}

impl Clone for ArticleResultPreview {
    fn clone(&self) -> (copy: Self)
        ensures
            copy@ == self@,
    {
        ArticleResultPreview {
            page_id: self.page_id,
            snippet: self.snippet.clone(),
            title: self.title.clone(),
        }
    }
}

impl From<SearchResultPreview> for ArticleResultPreview {
    /// Takes identifier, excerpt and title over from a search entry.
    fn from(search_result: SearchResultPreview) -> (preview: Self)
        ensures
            preview@ == search_result@,
    {
        ArticleResultPreview {
            page_id: search_result.page_id,
            snippet: search_result.snippet,
            title: search_result.title,
        }
    }
}

impl FromSpecImpl<SearchResultPreview> for ArticleResultPreview {
    open spec fn obeys_from_spec() -> bool {
        true
    }

    open spec fn from_spec(search_result: SearchResultPreview) -> Self {
        ArticleResultPreview {
            page_id: search_result.page_id,
            snippet: search_result.snippet,
            title: search_result.title,
        }
    }
}

impl From<i32> for ArticleResultPreview {
    /// Builds a preview of which only the identifier is known: title and
    /// excerpt are empty.
    fn from(page_id: i32) -> (preview: Self)
        ensures
            preview@ == Self::bare(page_id),
    {
        ArticleResultPreview { page_id, snippet: String::new(), title: String::new() }
    }
}

impl FromSpecImpl<i32> for ArticleResultPreview {
    /// A text is told from another by its characters alone, so the result is
    /// stated on `from` itself, by its view, and not as one fixed value.
    open spec fn obeys_from_spec() -> bool {
        false
    }

    open spec fn from_spec(page_id: i32) -> Self {
        arbitrary()
    }
}

} // verus!
