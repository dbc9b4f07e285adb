use wiki_tui::error::{Error, Field};
use wiki_tui::wiki::decoder::{RawArticle, RawSearchEntry};
use wiki_tui::wiki::pipeline::{
    status_is_success, Config, PageRef, Pipeline, RawPage, Reply, Request,
};

fn pipeline() -> Pipeline {
    Pipeline::new(Config { endpoint: "https://example.org/api".to_string() })
}

fn hit(page_id: i64, title: &str) -> RawSearchEntry {
    RawSearchEntry { page_id: Some(page_id), title: Some(title.to_string()), snippet: None }
}

fn page() -> RawArticle {
    RawArticle {
        page_id: Some(9),
        title: Some("Nine".to_string()),
        text: Some("<p>9</p>".to_string()),
        outline: vec![],
    }
}

#[test]
fn empty_query_is_invalid_input() {
    match pipeline().search_request("") {
        Err(e) => assert_eq!(e, Error::InvalidInput),
        Ok(_) => panic!("an empty query gave a request"),
    }
}

#[test]
fn search_request_carries_endpoint_and_query() {
    match pipeline().search_request("rust") {
        Ok(Request::Search { endpoint, query }) => {
            assert_eq!(endpoint, "https://example.org/api");
            assert_eq!(query, "rust");
        }
        _ => panic!("no search request"),
    }
    match pipeline().search_request(" ") {
        Ok(Request::Search { query, .. }) => assert_eq!(query, " "),
        _ => panic!("no search request"),
    }
}

#[test]
fn article_request_carries_endpoint_and_page() {
    match pipeline().article_request(PageRef::Id(5)) {
        Request::Article { endpoint, page: PageRef::Id(id) } => {
            assert_eq!(endpoint, "https://example.org/api");
            assert_eq!(id, 5);
        }
        _ => panic!("no article request by identifier"),
    }
    match pipeline().article_request(PageRef::Title("Rust".to_string())) {
        Request::Article { page: PageRef::Title(title), .. } => assert_eq!(title, "Rust"),
        _ => panic!("no article request by title"),
    }
}

#[test]
fn success_is_two_hundred_to_two_ninety_nine() {
    assert!(!status_is_success(0));
    assert!(!status_is_success(199));
    assert!(status_is_success(200));
    assert!(status_is_success(204));
    assert!(status_is_success(299));
    assert!(!status_is_success(300));
    assert!(!status_is_success(404));
    assert!(!status_is_success(u16::MAX));
}

#[test]
fn unreachable_search_is_transport_error() {
    let reply: Reply<Vec<RawSearchEntry>> = Reply::Unreachable;
    assert_eq!(Pipeline::search_result(&reply).unwrap_err(), Error::TransportError);
}

#[test]
fn refused_search_is_api_error_with_code() {
    for status in [199u16, 300, 404, 500, 503] {
        let reply = Reply::Answered { status, payload: vec![hit(1, "ignored")] };
        assert_eq!(Pipeline::search_result(&reply).unwrap_err(), Error::ApiError(status));
    }
}

#[test]
fn answered_search_gives_entries_in_order() {
    let reply =
        Reply::Answered { status: 200, payload: vec![hit(3, "c"), hit(1, "a"), hit(2, "b")] };
    let entries = Pipeline::search_result(&reply).unwrap();
    let ids: Vec<i32> = entries.iter().map(|e| e.page_id).collect();
    assert_eq!(ids, vec![3, 1, 2]);
    let titles: Vec<&str> = entries.iter().map(|e| e.title.as_str()).collect();
    assert_eq!(titles, vec!["c", "a", "b"]);
}

#[test]
fn answered_search_with_nothing_found_is_empty() {
    let reply: Reply<Vec<RawSearchEntry>> = Reply::Answered { status: 200, payload: vec![] };
    assert!(Pipeline::search_result(&reply).unwrap().is_empty());
}

#[test]
fn malformed_search_answer_is_decode_error() {
    let bad = RawSearchEntry { page_id: Some(1), title: None, snippet: None };
    let reply = Reply::Answered { status: 200, payload: vec![hit(1, "a"), bad] };
    assert_eq!(Pipeline::search_result(&reply).unwrap_err(), Error::DecodeError(Field::Title));
}

#[test]
fn unreachable_article_is_transport_error() {
    let reply: Reply<RawPage> = Reply::Unreachable;
    assert_eq!(Pipeline::article_result(&reply).err(), Some(Error::TransportError));
}

#[test]
fn refused_article_is_api_error_with_code() {
    let reply = Reply::Answered { status: 500, payload: RawPage::Found(page()) };
    assert_eq!(Pipeline::article_result(&reply).err(), Some(Error::ApiError(500)));
    let reply = Reply::Answered { status: 403, payload: RawPage::Missing };
    assert_eq!(Pipeline::article_result(&reply).err(), Some(Error::ApiError(403)));
}

#[test]
fn missing_page_is_not_found() {
    let reply = Reply::Answered { status: 200, payload: RawPage::Missing };
    assert_eq!(Pipeline::article_result(&reply).err(), Some(Error::NotFound));
}

#[test]
fn answered_article_is_decoded() {
    let reply = Reply::Answered { status: 200, payload: RawPage::Found(page()) };
    let (article, table) = Pipeline::article_result(&reply).ok().unwrap();
    assert_eq!(article.page_id, 9);
    assert_eq!(article.title, "Nine");
    assert_eq!(article.content, "9\n");
    assert_eq!(table.title, "Nine");
    assert!(table.items.is_empty());
}

#[test]
fn malformed_article_answer_is_decode_error() {
    let raw = RawArticle { title: None, ..page() };
    let reply = Reply::Answered { status: 200, payload: RawPage::Found(raw) };
    assert_eq!(Pipeline::article_result(&reply).err(), Some(Error::DecodeError(Field::Title)));
}

#[test]
fn only_transport_errors_are_retryable() {
    assert!(Error::TransportError.is_retryable());
    assert!(!Error::InvalidInput.is_retryable());
    assert!(!Error::ApiError(503).is_retryable());
    assert!(!Error::DecodeError(Field::Title).is_retryable());
    assert!(!Error::NotFound.is_retryable());
    assert!(!Error::InvalidSelection.is_retryable());
    assert!(!Error::EmptyHistory.is_retryable());
}
