use hn_tui::navigation::{handle_key_events, Action, App, Effect, KeyInput};
use hn_tui::types::Item;

fn story(id: u32, title: &str) -> Item {
    Item {
        id,
        deleted: None,
        type_: "story".to_string(),
        by: "author".to_string(),
        time: 1700000000,
        text: None,
        dead: None,
        parent: None,
        title: title.to_string(),
        score: 1,
        url: None,
    }
}

fn app_with_stories(n: u32) -> App {
    let mut app = App::default();
    let items: Vec<Item> = (0..n).map(|i| story(i, "t")).collect();
    app.replace_stories(items);
    app
}

#[test]
fn test_default_app_state() {
    let app = App::default();
    assert!(app.running);
    assert_eq!(app.counter, 0);
    assert_eq!(app.action, Action::NavigateStories);
    assert!(app.last_action.is_none());
    assert_eq!(app.context.story_kind_selector.len(), 3);
    assert_eq!(app.context.story_kind_selector.position(), 0);
    assert_eq!(app.context.story_selector.len(), 0);
}

#[test]
fn test_help_toggle_round_trip() {
    let mut app = App::default();
    let e1 = handle_key_events(KeyInput::Char('h'), &mut app);
    assert_eq!(app.action, Action::ViewHelpDialogue);
    assert_eq!(e1, Effect::Idle);
    let e2 = handle_key_events(KeyInput::Char('h'), &mut app);
    assert_eq!(app.action, Action::NavigateStories);
    assert_eq!(e2, Effect::Idle);
}

#[test]
fn test_help_toggle_from_story_view_returns_there() {
    let mut app = app_with_stories(2);
    handle_key_events(KeyInput::Enter, &mut app);
    assert_eq!(app.action, Action::ViewStory);
    handle_key_events(KeyInput::Char('H'), &mut app);
    assert_eq!(app.action, Action::ViewHelpDialogue);
    handle_key_events(KeyInput::Char('H'), &mut app);
    assert_eq!(app.action, Action::ViewStory);
}

#[test]
fn test_confirm_and_back_round_trip() {
    let mut app = app_with_stories(2);
    let e1 = handle_key_events(KeyInput::Enter, &mut app);
    assert_eq!(app.action, Action::ViewStory);
    assert_eq!(e1, Effect::Idle);
    let e2 = handle_key_events(KeyInput::Backspace, &mut app);
    assert_eq!(app.action, Action::NavigateStories);
    assert_eq!(e2, Effect::Idle);
}

#[test]
fn test_confirm_on_empty_story_list_is_noop() {
    let mut app = App::default();
    assert_eq!(app.context.story_selector.len(), 0);
    handle_key_events(KeyInput::Enter, &mut app);
    assert_eq!(app.action, Action::NavigateStories);
}

#[test]
fn test_back_without_history_falls_back_to_browsing() {
    let mut app = App::default();
    app.action = Action::ViewStory;
    app.last_action = None;
    handle_key_events(KeyInput::Backspace, &mut app);
    assert_eq!(app.action, Action::NavigateStories);
}

#[test]
fn test_move_right_selects_next_feed_and_asks_for_refresh() {
    let mut app = App::default();
    assert_eq!(app.context.story_kind_selector.position(), 0);
    let eff = handle_key_events(KeyInput::Right, &mut app);
    assert_eq!(app.context.story_kind_selector.position(), 1);
    assert_eq!(eff, Effect::RefreshStories);
}

#[test]
fn test_move_left_at_first_feed_clamps_but_still_refreshes() {
    let mut app = App::default();
    let eff = handle_key_events(KeyInput::Left, &mut app);
    assert_eq!(app.context.story_kind_selector.position(), 0);
    assert_eq!(eff, Effect::RefreshStories);
}

#[test]
fn test_move_down_at_last_story_stays() {
    let mut app = app_with_stories(5);
    for _ in 0..4 {
        handle_key_events(KeyInput::Down, &mut app);
    }
    assert_eq!(app.context.story_selector.position(), 4);
    let eff = handle_key_events(KeyInput::Down, &mut app);
    assert_eq!(app.context.story_selector.position(), 4);
    assert_eq!(eff, Effect::Idle);
}

#[test]
fn test_quit_keys_stop_the_loop() {
    for key in [
        KeyInput::Escape,
        KeyInput::Char('q'),
        KeyInput::CtrlChar('c'),
        KeyInput::CtrlChar('C'),
    ] {
        let mut app = App::default();
        let eff = handle_key_events(key, &mut app);
        assert!(!app.running);
        assert_eq!(eff, Effect::Idle);
    }
}

#[test]
fn test_plain_c_does_not_quit() {
    let mut app = App::default();
    handle_key_events(KeyInput::Char('c'), &mut app);
    assert!(app.running);
}

#[test]
fn test_replace_stories_resets_cursor() {
    let mut app = app_with_stories(3);
    handle_key_events(KeyInput::Down, &mut app);
    assert_eq!(app.context.story_selector.position(), 1);
    app.replace_stories(vec![story(9, "x")]);
    assert_eq!(app.context.story_selector.position(), 0);
    assert_eq!(app.context.story_selector.len(), 1);
}

#[test]
fn test_update_action_remembers_previous() {
    let mut app = App::default();
    app.update_action(Action::ViewStory);
    assert_eq!(app.action, Action::ViewStory);
    assert_eq!(app.last_action, Some(Action::NavigateStories));
}
