//! One entry of a search answer.

use vstd::prelude::*;

verus! {

/// A page that matched a query, as listed by the remote service.
#[derive(Debug)]
pub struct SearchResultPreview {
    pub page_id: i32,
    pub title: String,
    /// A short excerpt. It may carry light markup and is kept as it came.
    pub snippet: String,
}

/// What a search entry or a preview says: an identifier and two texts.
pub ghost struct PreviewView {
    pub page_id: int,
    pub title: Seq<char>,
    pub snippet: Seq<char>,
}

impl View for SearchResultPreview {
    type V = PreviewView;

    open spec fn view(&self) -> PreviewView {
        PreviewView { page_id: self.page_id as int, title: self.title@, snippet: self.snippet@ }
    }
}

impl Clone for SearchResultPreview {
    fn clone(&self) -> (copy: Self)
        ensures
            copy@ == self@,
    {
        SearchResultPreview {
            page_id: self.page_id,
            title: self.title.clone(),
            snippet: self.snippet.clone(),
        }
    }
}

} // verus!
