use hn_tui::store::make_item_store;
use hn_tui::types::{story_kinds, Item, StoryKind};

fn item_with(id: u32, title: &str, text: Option<&str>, url: Option<&str>) -> Item {
    Item {
        id,
        deleted: None,
        type_: "story".to_string(),
        by: "author".to_string(),
        time: 1700000000,
        text: text.map(|t| t.to_string()),
        dead: None,
        parent: None,
        title: title.to_string(),
        score: 0,
        url: url.map(|u| u.to_string()),
    }
}

#[test]
fn test_make_item_store_keys_by_id() {
    let items = vec![
        item_with(1, "one", None, None),
        item_with(2, "two", None, None),
        item_with(3, "three", None, None),
    ];
    let store = make_item_store(items);
    assert_eq!(store.len(), 3);
    assert_eq!(store.get(&2).unwrap().title, "two");
    assert!(store.get(&4).is_none());
}

#[test]
fn test_make_item_store_later_duplicate_wins() {
    let items = vec![item_with(5, "first", None, None), item_with(5, "second", None, None)];
    let store = make_item_store(items);
    assert_eq!(store.len(), 1);
    assert_eq!(store.get(&5).unwrap().title, "second");
}

#[test]
fn test_make_item_store_of_nothing_is_empty() {
    let store = make_item_store(Vec::new());
    assert!(store.is_empty());
}

#[test]
fn test_content_text_prefers_body_over_link() {
    let both = item_with(1, "t", Some("body"), Some("https://example.org"));
    assert_eq!(both.content_text().unwrap(), "body");
    let link_only = item_with(2, "t", None, Some("https://example.org"));
    assert_eq!(link_only.content_text().unwrap(), "https://example.org");
    let neither = item_with(3, "t", None, None);
    assert!(neither.content_text().is_none());
}

#[test]
fn test_item_getters() {
    let it = item_with(9, "nine", Some("text"), None);
    assert_eq!(*it.id(), 9);
    assert_eq!(it.title(), "nine");
    assert_eq!(it.by(), "author");
    assert_eq!(*it.time(), 1700000000);
    assert_eq!(*it.score(), 0);
    assert!(it.url().is_none());
    assert!(it.parent().is_none());
}

#[test]
fn test_story_kinds_order() {
    let kinds = story_kinds();
    assert_eq!(kinds, vec![StoryKind::Top, StoryKind::Best, StoryKind::New]);
}
