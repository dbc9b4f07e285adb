use wiki_tui::cli::{startup, Startup};

#[test]
fn search_text_comes_first() {
    match startup(Some("rust".to_string()), Some(7)) {
        Startup::Search(text) => assert_eq!(text, "rust"),
        _ => panic!("no search"),
    }
    match startup(Some(String::new()), None) {
        Startup::Search(text) => assert_eq!(text, ""),
        _ => panic!("no search"),
    }
}

#[test]
fn identifier_alone_opens_the_article() {
    match startup(None, Some(7)) {
        Startup::Article(preview) => {
            assert_eq!(preview.page_id, 7);
            assert_eq!(preview.title, "");
            assert_eq!(preview.snippet, "");
        }
        _ => panic!("no article"),
    }
}

#[test]
fn nothing_given_idles() {
    assert!(matches!(startup(None, None), Startup::Idle));
}
