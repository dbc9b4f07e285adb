use wiki_tui::error::Error;
use wiki_tui::ui::models::table_of_contents::{Item, Table};
use wiki_tui::ui::models::Article;
use wiki_tui::ui::navigation::{find_first, NavigationState};
use wiki_tui::wiki::coordinator::{Delivery, Slot};

fn leaf(number: i32, text: &str) -> Item {
    Item { number, text: text.to_string(), sub_items: None }
}

fn rust() -> (Article, Table) {
    (
        Article {
            page_id: 7,
            title: "Rust".to_string(),
            content: "Rust\nHistory\nIt began.\nDesign\nSyntax\nBraces.\n".to_string(),
        },
        Table {
            title: "Rust".to_string(),
            items: vec![
                leaf(1, "History"),
                Item {
                    number: 2,
                    text: "Design".to_string(),
                    sub_items: Some(vec![leaf(1, "Syntax")]),
                },
                leaf(3, "Legacy"),
            ],
        },
    )
}

fn go() -> (Article, Table) {
    (
        Article {
            page_id: 8,
            title: "Go".to_string(),
            content: "Go\nOrigins\nIt began too.\n".to_string(),
        },
        Table { title: "Go".to_string(), items: vec![leaf(1, "Origins")] },
    )
}

fn chars(s: &str) -> Vec<char> {
    s.chars().collect()
}

#[test]
fn new_state_is_blank() {
    let nav = NavigationState::new();
    assert!(nav.article().is_none());
    assert!(nav.table().is_none());
    assert_eq!(nav.selection(), 0);
    assert_eq!(nav.history_len(), 0);
}

#[test]
fn go_back_on_empty_history_fails() {
    let mut nav = NavigationState::new();
    assert_eq!(nav.go_back(), Err(Error::EmptyHistory));
    assert_eq!(nav.history_len(), 0);
    assert!(nav.article().is_none());
}

#[test]
fn first_open_leaves_history_empty() {
    let mut nav = NavigationState::new();
    let (a, t) = rust();
    nav.open(a, t);
    assert_eq!(nav.article().map(|a| a.page_id), Some(7));
    assert_eq!(nav.table().map(|t| t.title.as_str()), Some("Rust"));
    assert_eq!(nav.selection(), 0);
    assert_eq!(nav.history_len(), 0);
    assert_eq!(nav.go_back(), Err(Error::EmptyHistory));
}

#[test]
fn go_back_after_open_restores_previous_identifier_once() {
    let mut nav = NavigationState::new();
    let (a, t) = rust();
    nav.open(a, t);
    let (a, t) = go();
    nav.open(a, t);
    assert_eq!(nav.history_len(), 1);
    assert_eq!(nav.go_back(), Ok(7));
    assert_eq!(nav.history_len(), 0);
    assert_eq!(nav.go_back(), Err(Error::EmptyHistory));
    assert_eq!(nav.article().map(|a| a.page_id), Some(8));
}

#[test]
fn history_comes_back_latest_first() {
    let mut nav = NavigationState::new();
    for id in 1..=4 {
        let (mut a, t) = rust();
        a.page_id = id;
        nav.open(a, t);
    }
    assert_eq!(nav.history_len(), 3);
    assert_eq!(nav.go_back(), Ok(3));
    assert_eq!(nav.go_back(), Ok(2));
    assert_eq!(nav.go_back(), Ok(1));
    assert_eq!(nav.go_back(), Err(Error::EmptyHistory));
}

#[test]
fn open_replaces_wholesale_and_resets_selection() {
    let mut nav = NavigationState::new();
    let (a, t) = rust();
    nav.open(a, t);
    assert_eq!(nav.jump_to_section(&leaf(1, "History")), Ok(5));
    assert_eq!(nav.selection(), 5);
    let (a, t) = go();
    nav.open(a, t);
    assert_eq!(nav.selection(), 0);
    assert_eq!(nav.article().map(|a| a.content.as_str()), Some("Go\nOrigins\nIt began too.\n"));
    assert_eq!(nav.table().map(|t| t.items.len()), Some(1));
}

#[test]
fn jump_goes_to_first_place_of_heading_text() {
    let mut nav = NavigationState::new();
    let (a, t) = rust();
    nav.open(a, t);
    assert_eq!(nav.jump_to_section(&leaf(1, "Syntax")), Ok(30));
    assert_eq!(nav.selection(), 30);
    let design = Item {
        number: 2,
        text: "Design".to_string(),
        sub_items: Some(vec![leaf(1, "Syntax")]),
    };
    assert_eq!(nav.jump_to_section(&design), Ok(23));
    assert_eq!(nav.selection(), 23);
}

#[test]
fn jump_to_stale_item_fails_and_keeps_selection() {
    let mut nav = NavigationState::new();
    let (a, t) = rust();
    let stale = t.items[0].clone();
    nav.open(a, t);
    let (a, t) = go();
    nav.open(a, t);
    assert_eq!(nav.jump_to_section(&leaf(1, "Origins")), Ok(3));
    assert_eq!(nav.jump_to_section(&stale), Err(Error::InvalidSelection));
    assert_eq!(nav.selection(), 3);
    assert_eq!(nav.article().map(|a| a.page_id), Some(8));
    assert_eq!(nav.history_len(), 1);
}

#[test]
fn jump_without_document_fails() {
    let mut nav = NavigationState::new();
    assert_eq!(nav.jump_to_section(&leaf(1, "History")), Err(Error::InvalidSelection));
    assert_eq!(nav.selection(), 0);
}

#[test]
fn jump_to_item_with_other_shape_fails() {
    let mut nav = NavigationState::new();
    let (a, t) = rust();
    nav.open(a, t);
    assert_eq!(nav.jump_to_section(&leaf(2, "Design")), Err(Error::InvalidSelection));
    assert_eq!(nav.jump_to_section(&leaf(2, "History")), Err(Error::InvalidSelection));
    assert_eq!(nav.selection(), 0);
}

#[test]
fn jump_to_heading_absent_from_body_fails() {
    let mut nav = NavigationState::new();
    let (a, t) = rust();
    nav.open(a, t);
    assert_eq!(nav.jump_to_section(&leaf(1, "History")), Ok(5));
    assert_eq!(nav.jump_to_section(&leaf(3, "Legacy")), Err(Error::InvalidSelection));
    assert_eq!(nav.selection(), 5);
}

#[test]
fn positions_count_characters_not_bytes() {
    let mut nav = NavigationState::new();
    let article = Article {
        page_id: 1,
        title: "T".to_string(),
        content: "\u{e9}t\u{e9}\nFin\n".to_string(),
    };
    let table = Table { title: "T".to_string(), items: vec![leaf(1, "Fin")] };
    nav.open(article, table);
    assert_eq!(nav.jump_to_section(&leaf(1, "Fin")), Ok(4));
}

#[test]
fn find_first_finds_least_place() {
    assert_eq!(find_first(&chars("abcabc"), &chars("bc")), Some(1));
    assert_eq!(find_first(&chars("abcabc"), &chars("abc")), Some(0));
    assert_eq!(find_first(&chars("abcabc"), &chars("cab")), Some(2));
    assert_eq!(find_first(&chars("abcabc"), &chars("abcabc")), Some(0));
    assert_eq!(find_first(&chars("aab"), &chars("ab")), Some(1));
    assert_eq!(find_first(&chars("abc"), &chars("c")), Some(2));
}

#[test]
fn find_first_of_empty_part_is_the_top() {
    assert_eq!(find_first(&chars("abc"), &chars("")), Some(0));
    assert_eq!(find_first(&chars(""), &chars("")), Some(0));
}

#[test]
fn find_first_of_absent_part_is_nothing() {
    assert_eq!(find_first(&chars("abc"), &chars("d")), None);
    assert_eq!(find_first(&chars("abc"), &chars("abcd")), None);
    assert_eq!(find_first(&chars(""), &chars("a")), None);
    assert_eq!(find_first(&chars("abc"), &chars("ca")), None);
}

#[test]
fn receive_opens_an_applied_article() {
    let mut nav = NavigationState::new();
    let (a, t) = rust();
    assert_eq!(nav.receive(Delivery::Apply(Ok((a, t)))), Ok(true));
    assert_eq!(nav.article().map(|a| a.page_id), Some(7));
}

#[test]
fn receive_hands_back_an_applied_failure_and_keeps_the_state() {
    let mut nav = NavigationState::new();
    let (a, t) = rust();
    nav.open(a, t);
    assert_eq!(nav.jump_to_section(&leaf(1, "History")), Ok(5));
    assert_eq!(nav.receive(Delivery::Apply(Err(Error::NotFound))), Err(Error::NotFound));
    assert_eq!(nav.receive(Delivery::Apply(Err(Error::TransportError))), Err(Error::TransportError));
    assert_eq!(nav.article().map(|a| a.page_id), Some(7));
    assert_eq!(nav.selection(), 5);
    assert_eq!(nav.history_len(), 0);
}

#[test]
fn receive_ignores_a_dropped_outcome() {
    let mut nav = NavigationState::new();
    let (a, t) = rust();
    nav.open(a, t);
    assert_eq!(nav.receive(Delivery::Dropped), Ok(false));
    assert_eq!(nav.article().map(|a| a.page_id), Some(7));
    assert_eq!(nav.history_len(), 0);
}

#[test]
fn superseded_fetch_never_shows_when_it_arrives_first() {
    let mut nav = NavigationState::new();
    let mut slot = Slot::new();
    let a = slot.submit();
    let b = slot.submit();
    let (ra, ta) = rust();
    let (rb, tb) = go();
    assert_eq!(nav.receive(slot.deliver(a, Ok((ra, ta)))), Ok(false));
    assert!(nav.article().is_none());
    assert_eq!(nav.receive(slot.deliver(b, Ok((rb, tb)))), Ok(true));
    assert_eq!(nav.article().map(|a| a.page_id), Some(8));
    assert_eq!(nav.history_len(), 0);
}

#[test]
fn superseded_fetch_never_shows_when_it_arrives_last() {
    let mut nav = NavigationState::new();
    let mut slot = Slot::new();
    let a = slot.submit();
    let b = slot.submit();
    let (ra, ta) = rust();
    let (rb, tb) = go();
    assert_eq!(nav.receive(slot.deliver(b, Ok((rb, tb)))), Ok(true));
    assert_eq!(nav.receive(slot.deliver(a, Ok((ra, ta)))), Ok(false));
    assert_eq!(nav.article().map(|a| a.page_id), Some(8));
    assert_eq!(nav.table().map(|t| t.title.as_str()), Some("Go"));
    assert_eq!(nav.history_len(), 0);
}

#[test]
fn failed_fetch_does_not_disturb_what_is_shown() {
    let mut nav = NavigationState::new();
    let mut slot = Slot::new();
    let (a, t) = rust();
    nav.open(a, t);
    let h = slot.submit();
    assert_eq!(
        nav.receive(slot.deliver(h, Err(Error::ApiError(500)))),
        Err(Error::ApiError(500))
    );
    assert_eq!(nav.article().map(|a| a.title.as_str()), Some("Rust"));
}

#[test]
fn selected_line_counts_line_feeds_before_the_selection() {
    let mut nav = NavigationState::new();
    assert_eq!(nav.selected_line(), 0);
    let (a, t) = rust();
    nav.open(a, t);
    assert_eq!(nav.selected_line(), 0);
    assert_eq!(nav.jump_to_section(&leaf(1, "History")), Ok(5));
    assert_eq!(nav.selected_line(), 1);
    assert_eq!(nav.jump_to_section(&leaf(1, "Syntax")), Ok(30));
    assert_eq!(nav.selected_line(), 4);
}

#[test]
fn count_lines_counts_only_what_lies_before() {
    let text: Vec<char> = "a\n\nb\n".chars().collect();
    assert_eq!(wiki_tui::ui::navigation::count_lines(&text, 0), 0);
    assert_eq!(wiki_tui::ui::navigation::count_lines(&text, 1), 0);
    assert_eq!(wiki_tui::ui::navigation::count_lines(&text, 2), 1);
    assert_eq!(wiki_tui::ui::navigation::count_lines(&text, 3), 2);
    assert_eq!(wiki_tui::ui::navigation::count_lines(&text, 4), 2);
    assert_eq!(wiki_tui::ui::navigation::count_lines(&text, 5), 3);
}
