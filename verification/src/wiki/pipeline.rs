//! The two operations against the remote service: search and fetch.
//!
//! The pipeline never talks to the network itself. For each operation it
//! says what is to be sent, and, once the caller has the service's reply,
//! what that reply amounts to. It keeps no state between the two and tries
//! nothing twice.

use vstd::prelude::*;
use crate::error::Error;
use crate::ui::models::Article;
use crate::ui::models::table_of_contents::Table;
use crate::wiki::decoder::{
    RawArticle, RawSearchEntry, decode_article, decode_search, decoded_entry, entry_defect,
    is_decoded_article, is_decoded_search,
};
use crate::wiki::search::SearchResultPreview;

verus! {

/// What the pipeline is set up with.
pub struct Config {
    /// The address of the remote service.
    pub endpoint: String,
}

/// A page, named by its identifier or by its title.
pub enum PageRef {
    Id(i32),
    Title(String),
}

/// What is to be sent to the remote service: a single request.
pub enum Request {
    /// Ask for the pages that match `query`, in the service's own page size.
    Search { endpoint: String, query: String },
    /// Ask for one page with its outline.
    Article { endpoint: String, page: PageRef },
}

/// What an article request found.
pub enum RawPage {
    /// The service knows no page of that title or identifier.
    Missing,
    /// The page, as it came.
    Found(RawArticle),
}

/// What came back for a request.
pub enum Reply<P> {
    /// Nothing came back: the service was not reached, or not in time.
    Unreachable,
    /// The service answered. `payload` counts only with a status of success.
    Answered { status: u16, payload: P },
}

/// True for the statuses that mean success.
pub open spec fn is_success(status: u16) -> bool {
    200 <= status <= 299
}

/// True when `r` is what the reply to a search amounts to.
pub open spec fn is_search_outcome(
    reply: Reply<Vec<RawSearchEntry>>,
    r: Result<Vec<SearchResultPreview>, Error>,
) -> bool {
    match reply {
        Reply::Unreachable => r matches Err(e) && e == Error::TransportError,
        Reply::Answered { status, payload } => if is_success(status) {
            is_decoded_search(payload@, r)
        } else {
            r matches Err(e) && e == Error::ApiError(status)
        },
    }
}

/// True when `r` is what the reply to an article request amounts to.
pub open spec fn is_article_outcome(reply: Reply<RawPage>, r: Result<(Article, Table), Error>) -> bool {
    match reply {
        Reply::Unreachable => r matches Err(e) && e == Error::TransportError,
        Reply::Answered { status, payload } => if is_success(status) {
            match payload {
                RawPage::Missing => r matches Err(e) && e == Error::NotFound,
                RawPage::Found(raw) => is_decoded_article(raw, r),
            }
        } else {
            r matches Err(e) && e == Error::ApiError(status)
        },
    }
}

/// Tells whether a status means success.
pub fn status_is_success(status: u16) -> (b: bool)
    ensures
        b == is_success(status),
{
    200 <= status && status <= 299
}

/// The two operations, set up with the address of the service.
pub struct Pipeline {
    config: Config,
}

impl Pipeline {
    /// The address that every request of this pipeline goes to.
    pub closed spec fn endpoint(&self) -> Seq<char> {
        self.config.endpoint@
    }

    /// Sets the pipeline up.
    pub fn new(config: Config) -> (pipeline: Self)
        ensures
            pipeline.endpoint() == config.endpoint@,
    {
        Pipeline { config }
    }

    /// The request for a search. An empty query is the caller's mistake and
    /// gives no request.
    pub fn search_request(&self, query: &str) -> (r: Result<Request, Error>)
        ensures
            match r {
                Ok(request) => query@.len() > 0 && (request matches Request::Search {
                    endpoint,
                    query: sent,
                } && endpoint@ == self.endpoint() && sent@ == query@),
                Err(e) => query@.len() == 0 && e == Error::InvalidInput,
            },
    {
        if query.is_empty() {
            return Err(Error::InvalidInput);
        }
        Ok(Request::Search { endpoint: self.config.endpoint.clone(), query: query.to_owned() })
    }

    /// The request for an article. Finding the page that a title stands for
    /// is the service's part of this request.
    pub fn article_request(&self, page: PageRef) -> (request: Request)
        ensures
            request matches Request::Article { endpoint, page: sent } && endpoint@
                == self.endpoint() && sent == page,
    {
        Request::Article { endpoint: self.config.endpoint.clone(), page }
    }

    /// What the reply to a search amounts to: the entries in the order of
    /// the reply, or the failure.
    pub fn search_result(reply: &Reply<Vec<RawSearchEntry>>) -> (r: Result<
        Vec<SearchResultPreview>,
        Error,
    >)
        ensures
            is_search_outcome(*reply, r),
    {
        match reply {
            Reply::Unreachable => Err(Error::TransportError),
            Reply::Answered { status, payload } => {
                if status_is_success(*status) {
                    decode_search(payload)
                } else {
                    Err(Error::ApiError(*status))
                }
            },
        }
    }

    /// What the reply to an article request amounts to: the article with
    /// its outline, or the failure.
    pub fn article_result(reply: &Reply<RawPage>) -> (r: Result<(Article, Table), Error>)
        ensures
            is_article_outcome(*reply, r),
    {
        match reply {
            Reply::Unreachable => Err(Error::TransportError),
            Reply::Answered { status, payload } => {
                if status_is_success(*status) {
                    match payload {
                        RawPage::Missing => Err(Error::NotFound),
                        RawPage::Found(raw) => decode_article(raw),
                    }
                } else {
                    Err(Error::ApiError(*status))
                }
            },
        }
    }
}

/// A reply of success whose entries are all usable gives exactly one
/// entry for each of them, in the order of the reply; a reply without
/// entries gives none.
pub proof fn lemma_usable_reply_gives_every_entry(
    status: u16,
    payload: Vec<RawSearchEntry>,
    r: Result<Vec<SearchResultPreview>, Error>,
)
    requires
        is_success(status),
        forall|i: int| 0 <= i < payload@.len() ==> entry_defect(#[trigger] payload@[i]) is None,
        is_search_outcome(Reply::Answered { status, payload }, r),
    ensures
        r is Ok,
        r->Ok_0@.len() == payload@.len(),
        forall|i: int|
            0 <= i < payload@.len() ==> (#[trigger] r->Ok_0@[i])@ == decoded_entry(payload@[i]),
{
}

} // verus!
