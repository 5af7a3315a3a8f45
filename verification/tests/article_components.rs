use tuifeed::article::{
    ArticleAuthors, ArticleDate, ArticleLink, ArticleSummary, ArticleTitle, KeyInput, Msg,
};

const FIVE_ROWS: &str = "r1\nr2\nr3\nr4\nr5";

#[test]
fn summary_reflows_body() {
    let c = ArticleSummary::new("Hello\n\n\n\nWorld");
    assert_eq!(c.rows, vec!["Hello".to_string(), "World".to_string()]);
    assert_eq!(c.scroll, 0);
}

#[test]
fn down_down_up_leaves_position_one() {
    let mut c = ArticleSummary::new(FIVE_ROWS);
    assert_eq!(c.on(KeyInput::Down), Some(Msg::NoOp));
    assert_eq!(c.on(KeyInput::Down), Some(Msg::NoOp));
    assert_eq!(c.on(KeyInput::Up), Some(Msg::NoOp));
    assert_eq!(c.scroll, 1);
}

#[test]
fn up_floors_at_zero() {
    let mut c = ArticleSummary::new(FIVE_ROWS);
    assert_eq!(c.on(KeyInput::Up), Some(Msg::NoOp));
    assert_eq!(c.scroll, 0);
    c.on(KeyInput::Down);
    c.on(KeyInput::Up);
    c.on(KeyInput::Up);
    c.on(KeyInput::Up);
    assert_eq!(c.scroll, 0);
}

#[test]
fn home_then_ups_stays_at_zero() {
    let mut c = ArticleSummary::new(FIVE_ROWS);
    c.on(KeyInput::Down);
    c.on(KeyInput::Down);
    c.on(KeyInput::Down);
    assert_eq!(c.on(KeyInput::Home), Some(Msg::NoOp));
    assert_eq!(c.scroll, 0);
    c.on(KeyInput::Up);
    c.on(KeyInput::Up);
    assert_eq!(c.scroll, 0);
}

#[test]
fn end_goes_to_last_row_from_anywhere() {
    let mut c = ArticleSummary::new(FIVE_ROWS);
    assert_eq!(c.on(KeyInput::End), Some(Msg::NoOp));
    assert_eq!(c.scroll, 4);
    c.on(KeyInput::Home);
    c.on(KeyInput::Down);
    c.on(KeyInput::End);
    assert_eq!(c.scroll, 4);
}

#[test]
fn end_on_empty_body_stays_at_zero() {
    let mut c = ArticleSummary::new("");
    assert!(c.rows.is_empty());
    c.on(KeyInput::End);
    assert_eq!(c.scroll, 0);
}

#[test]
fn page_keys_move_two_steps() {
    let mut c = ArticleSummary::new(FIVE_ROWS);
    assert_eq!(c.on(KeyInput::PageDown), Some(Msg::NoOp));
    assert_eq!(c.scroll, 2);
    c.on(KeyInput::Down);
    assert_eq!(c.on(KeyInput::PageUp), Some(Msg::NoOp));
    assert_eq!(c.scroll, 1);
    assert_eq!(c.on(KeyInput::PageUp), Some(Msg::NoOp));
    assert_eq!(c.scroll, 0);
}

#[test]
fn left_blurs_and_never_moves() {
    let mut c = ArticleSummary::new(FIVE_ROWS);
    c.on(KeyInput::Down);
    c.on(KeyInput::Down);
    assert_eq!(c.on(KeyInput::Left), Some(Msg::ArticleBlur));
    assert_eq!(c.scroll, 2);
}

#[test]
fn enter_opens_and_never_moves() {
    let mut c = ArticleSummary::new(FIVE_ROWS);
    c.on(KeyInput::Down);
    assert_eq!(c.on(KeyInput::Enter), Some(Msg::OpenArticle));
    assert_eq!(c.scroll, 1);
}

#[test]
fn other_keys_are_ignored() {
    let mut c = ArticleSummary::new(FIVE_ROWS);
    c.on(KeyInput::Down);
    assert_eq!(c.on(KeyInput::Other), None);
    assert_eq!(c.scroll, 1);
}

#[test]
fn title_text_is_kept() {
    let mut t = ArticleTitle::new("A headline");
    assert_eq!(t.text, "A headline");
    assert_eq!(t.on(KeyInput::Enter), None);
}

#[test]
fn link_text_is_kept() {
    let mut l = ArticleLink::new("https://example.com/a");
    assert_eq!(l.text, "https://example.com/a");
    assert_eq!(l.on(KeyInput::Left), None);
}

#[test]
fn authors_join_with_comma_and_space() {
    let names = vec!["Ada".to_string(), "Grace".to_string(), "Edsger".to_string()];
    let a = ArticleAuthors::new(&names);
    assert_eq!(a.text, "Ada, Grace, Edsger");
}

#[test]
fn single_author_stands_alone() {
    let names = vec!["Ada".to_string()];
    let a = ArticleAuthors::new(&names);
    assert_eq!(a.text, "Ada");
}

#[test]
fn no_authors_give_empty_line() {
    let names: Vec<String> = Vec::new();
    let mut a = ArticleAuthors::new(&names);
    assert_eq!(a.text, "");
    assert_eq!(a.on(KeyInput::Up), None);
}

#[test]
fn missing_date_renders_empty() {
    let mut d = ArticleDate::new(None);
    assert_eq!(d.text, "");
    assert_eq!(d.on(KeyInput::Down), None);
}

#[test]
fn present_date_renders_nonempty() {
    let d = ArticleDate::new(Some(0));
    assert!(!d.text.is_empty());
    assert!(d.text.contains(", "));
}
