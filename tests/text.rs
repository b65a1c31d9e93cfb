use postboard::html::html_escape;
use postboard::ids::parse_post_id;
use postboard::page::{render_index, ITEM_CLOSE, ITEM_OPEN, PAGE_HEAD, PAGE_TAIL};
use postboard::post::{Post, PostId, RepoError, Timestamp};

#[test]
fn escapes_markup_characters() {
    assert_eq!(html_escape("a<b>&\"c\""), "a&lt;b&gt;&amp;&quot;c&quot;");
    assert_eq!(html_escape("plain é"), "plain é");
    assert_eq!(html_escape(""), "");
    assert_eq!(html_escape("&amp;"), "&amp;amp;");
}

#[test]
fn id_text_is_canonical() {
    let id = PostId { value: 0xa1a2a3a4b1b2c1c2d1d2d3d4d5d6d7d8 };
    assert_eq!(id.to_text(), "a1a2a3a4-b1b2-c1c2-d1d2-d3d4d5d6d7d8");
    assert_eq!(PostId { value: 1 }.to_text(), "00000000-0000-0000-0000-000000000001");
}

#[test]
fn id_text_parses_back() {
    let id = PostId { value: 0x550e8400e29b41d4a716446655440000 };
    assert_eq!(parse_post_id(&id.to_text()), Ok(id));
    assert_eq!(parse_post_id("550E8400E29B41D4A716446655440000"), Ok(id));
}

#[test]
fn malformed_id_is_invalid_input() {
    assert_eq!(parse_post_id("42"), Err(RepoError::InvalidInput));
    assert_eq!(parse_post_id(""), Err(RepoError::InvalidInput));
    assert_eq!(parse_post_id("550e8400-e29b-41d4-a716-44665544000g"), Err(RepoError::InvalidInput));
}

#[test]
fn renders_empty_index() {
    let page = render_index(&Vec::new());
    assert_eq!(page, format!("{}{}", PAGE_HEAD, PAGE_TAIL));
    assert!(page.starts_with("<!DOCTYPE html>"));
    assert!(page.contains("<h1>Homepage</h1>"));
}

#[test]
fn renders_escaped_items() {
    let posts = vec![Post {
        id: PostId { value: 1 },
        title: "<b>".to_string(),
        content: "x & y".to_string(),
        created_at: Timestamp { micros: 0 },
    }];
    let page = render_index(&posts);
    assert!(page.contains("value=\"&lt;b&gt;\""));
    assert!(page.contains("value=\"x &amp; y\""));
    assert!(page.contains("value=\"00000000-0000-0000-0000-000000000001\""));
    assert_eq!(page.matches(ITEM_OPEN).count(), 1);
    assert_eq!(page.matches(ITEM_CLOSE).count(), 1);
    assert!(!page.contains("<b>"));
}
