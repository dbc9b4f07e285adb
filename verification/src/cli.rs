//! What the program does first, given what it was started with.

use vstd::prelude::*;
use crate::ui::models::ArticleResultPreview;

verus! {

/// The first thing to do after the start.
pub enum Startup {
    /// Search for this text.
    Search(String),
    /// Open the article with this preview.
    Article(ArticleResultPreview),
    /// Do nothing and show a blank document.
    Idle,
}

/// Decides what to do first. A search text comes before a page identifier;
/// with neither, the program idles, which is no error.
pub fn startup(search_query: Option<String>, article_id: Option<i32>) -> (first: Startup)
    ensures
        match (search_query, article_id) {
            (Some(query), _) => first matches Startup::Search(text) && text@ == query@,
            (None, Some(id)) => first matches Startup::Article(preview) && preview@
                == ArticleResultPreview::bare(id),
            (None, None) => first is Idle,
        },
{
    match search_query {
        Some(query) => Startup::Search(query),
        None => match article_id {
            Some(id) => Startup::Article(ArticleResultPreview::from(id)),
            None => Startup::Idle,
        },
    }
}

} // verus!
