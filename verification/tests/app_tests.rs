use discourse_tui::api::{ApiTopic, Category, LatestResponse, Poster, TopicList, User};
use discourse_tui::app::{App, Effect, PaneFocus, Screen, ViewFilter};
use discourse_tui::color::Color;
use discourse_tui::config::{Config, CurrentForum, Forum};

fn forum(id: &str) -> Forum {
    Forum { id: id.to_string(), name: id.to_string(), url: format!("{}.org", id), api_key: None, username: None }
}

fn config(selected: Option<&str>, ids: &[&str]) -> Config {
    Config {
        current: CurrentForum { selected: selected.map(|s| s.to_string()) },
        forums: ids.iter().map(|id| forum(id)).collect(),
    }
}

#[test]
fn from_config_picks_start_screen() {
    assert_eq!(App::from_config(config(None, &[])).screen, Screen::AddForum);
    assert_eq!(App::from_config(config(None, &["a"])).screen, Screen::ForumPicker);
    let app = App::from_config(config(Some("a"), &["a"]));
    assert_eq!(app.screen, Screen::TopicList);
    assert_eq!(app.forum_picker_state.selected, Some(0));
    assert_eq!(app.sidebar_state.selected, None);
    assert_eq!(app.focus, PaneFocus::Sidebar);
}

#[test]
fn new_has_sample_data() {
    let app = App::new();
    assert_eq!(app.sidebar_items.len(), 13);
    assert_eq!(app.sidebar_items[0].label, "Topics");
    assert_eq!(app.sidebar_items[0].unread_count, Some(3));
    assert_eq!(app.sidebar_items[7].label, "■ dev-ops");
    assert_eq!(app.sidebar_items[7].color, Some(Color::Rgb(255, 165, 0)));
    assert_eq!(app.sidebar_items[11].filter, Some(ViewFilter::Tag(0)));
    assert_eq!(app.all_topics.len(), 5);
    assert_eq!(app.topics.len(), 5);
    assert_eq!(app.all_topics[1].replies, 12);
    assert_eq!(app.topics_state.selected, Some(0));
}

fn latest() -> LatestResponse {
    LatestResponse {
        topic_list: TopicList {
            topics: vec![
                ApiTopic { id: 10, title: "Hello".into(), reply_count: 4, category_id: Some(2), posters: vec![Poster { user_id: 7 }] },
                ApiTopic { id: 11, title: "Orphan".into(), reply_count: 0, category_id: Some(99), posters: vec![] },
                ApiTopic { id: 12, title: "Loose".into(), reply_count: 1, category_id: None, posters: vec![Poster { user_id: 8 }] },
            ],
        },
        users: vec![User { id: 7, username: "alice".into() }],
    }
}

fn categories() -> Vec<Category> {
    vec![
        Category { id: 1, name: "meta".into(), color: "0088CC".into() },
        Category { id: 2, name: "dev".into(), color: "zzzzzz".into() },
    ]
}

#[test]
fn with_data_converts_topics_and_builds_sidebar() {
    let app = App::with_data(latest(), categories());
    assert_eq!(app.all_topics.len(), 3);
    assert_eq!(app.all_topics[0].author, "alice");
    assert_eq!(app.all_topics[0].category, "dev");
    assert_eq!(app.all_topics[0].replies, 4);
    assert_eq!(app.all_topics[1].author, "unknown");
    assert_eq!(app.all_topics[1].category, "uncategorized");
    assert_eq!(app.all_topics[2].author, "unknown");
    assert_eq!(app.all_topics[2].category, "uncategorized");
    assert_eq!(app.sidebar_items.len(), 8);
    assert_eq!(app.sidebar_items[5].label, "■ meta");
    assert_eq!(app.sidebar_items[5].color, Some(Color::Rgb(0, 136, 204)));
    assert_eq!(app.sidebar_items[6].color, None);
    assert_eq!(app.sidebar_items[6].filter, Some(ViewFilter::Category(1)));
    assert_eq!(app.sidebar_items[7].label, "All categories");
}

#[test]
fn sidebar_lists_at_most_ten_categories() {
    let cats: Vec<Category> = (0..12).map(|i| Category { id: i, name: format!("c{}", i), color: "FFFFFF".into() }).collect();
    let items = App::create_sidebar_with_categories(&cats);
    assert_eq!(items.len(), 16);
    assert_eq!(items[14].label, "■ c9");
}

#[test]
fn next_and_previous_wrap() {
    let mut app = App::new();
    app.next();
    assert_eq!(app.sidebar_state.selected, Some(1));
    app.previous();
    app.previous();
    assert_eq!(app.sidebar_state.selected, Some(12));
    app.next();
    assert_eq!(app.sidebar_state.selected, Some(0));
    app.toggle_focus();
    app.previous();
    assert_eq!(app.topics_state.selected, Some(4));
    assert_eq!(app.sidebar_state.selected, Some(0));
}

#[test]
fn toggle_focus_twice_is_identity() {
    let mut app = App::new();
    app.toggle_focus();
    assert_eq!(app.focus, PaneFocus::Topics);
    app.toggle_focus();
    assert_eq!(app.focus, PaneFocus::Sidebar);
}

#[test]
fn select_applies_filters() {
    let mut app = App::with_data(latest(), categories());
    app.sidebar_state.selected = Some(6); // category "dev"
    app.select();
    assert_eq!(app.current_filter, ViewFilter::Category(1));
    assert_eq!(app.topics.len(), 1);
    assert_eq!(app.topics[0].title, "Hello");
    app.sidebar_state.selected = Some(2); // my messages
    app.select();
    assert!(app.topics.is_empty());
    app.sidebar_state.selected = Some(3); // no filter
    app.select();
    assert_eq!(app.current_filter, ViewFilter::MyMessages);
    app.sidebar_state.selected = Some(0);
    app.select();
    assert_eq!(app.topics.len(), 3);
}

#[test]
fn my_posts_filter_keeps_ducks() {
    let mut app = App::new();
    app.sidebar_state.selected = Some(1);
    app.select();
    assert_eq!(app.topics.len(), 4);
    assert!(app.topics.iter().all(|t| t.author == "ducks"));
}

#[test]
fn select_on_topics_opens_topic_view() {
    let mut app = App::new();
    app.toggle_focus();
    app.select();
    assert_eq!(app.screen, Screen::TopicView);
    app.go_back();
    assert_eq!(app.screen, Screen::TopicList);
}

#[test]
fn go_back_from_form() {
    let mut app = App::from_config(config(None, &[]));
    app.go_back();
    assert_eq!(app.screen, Screen::AddForum);
    let mut app = App::from_config(config(None, &["a"]));
    app.screen = Screen::AddForum;
    app.go_back();
    assert_eq!(app.screen, Screen::ForumPicker);
}

#[test]
fn typing_into_form_and_erasing() {
    let mut app = App::from_config(config(None, &[]));
    assert_eq!(app.handle_char_input('R'), Effect::Nothing);
    app.handle_char_input('s');
    assert_eq!(app.add_forum_inputs.name, "Rs");
    app.handle_backspace();
    assert_eq!(app.add_forum_inputs.name, "R");
    app.handle_tab();
    app.handle_char_input('u');
    assert_eq!(app.add_forum_inputs.url, "u");
    app.handle_tab();
    app.handle_tab();
    app.handle_tab();
    assert_eq!(app.add_forum_inputs.active_field, 0);
    app.handle_backspace();
    app.handle_backspace();
    assert_eq!(app.add_forum_inputs.name, "");
}

#[test]
fn enter_on_form_adds_forum() {
    let mut app = App::from_config(config(None, &[]));
    for c in "My Forum".chars() {
        app.handle_char_input(c);
    }
    assert_eq!(app.handle_enter(), Effect::Nothing); // no URL yet
    app.handle_tab();
    for c in "forum.org".chars() {
        app.handle_char_input(c);
    }
    let effect = app.handle_enter();
    assert_eq!(effect, Effect::SaveConfigThenShowTopics);
    assert_eq!(app.config.forums.len(), 1);
    assert_eq!(app.config.forums[0].id, "my-forum");
    assert_eq!(app.config.forums[0].api_key, None);
    assert_eq!(app.config.current.selected.as_deref(), Some("my-forum"));
    assert_eq!(app.screen, Screen::AddForum);
    app.config_saved(effect);
    assert_eq!(app.screen, Screen::TopicList);
}

#[test]
fn picker_keys() {
    let mut app = App::from_config(config(None, &["a", "b", "c"]));
    app.handle_navigation(false);
    assert_eq!(app.forum_picker_state.selected, Some(2));
    app.handle_navigation(true);
    assert_eq!(app.forum_picker_state.selected, Some(0));
    let effect = app.handle_enter();
    assert_eq!(effect, Effect::SaveConfigThenShowTopics);
    assert_eq!(app.config.current.selected.as_deref(), Some("a"));
    app.handle_char_input('a');
    assert_eq!(app.screen, Screen::AddForum);
}

#[test]
fn deleting_forums_moves_highlight_and_opens_form() {
    let mut app = App::from_config(config(Some("c"), &["a", "b", "c"]));
    app.screen = Screen::ForumPicker;
    app.forum_picker_state.selected = Some(2);
    assert_eq!(app.handle_char_input('d'), Effect::SaveConfig);
    assert_eq!(app.config.forums.len(), 2);
    assert_eq!(app.config.current.selected, None);
    assert_eq!(app.forum_picker_state.selected, Some(1));
    app.handle_char_input('d');
    app.handle_char_input('d');
    assert!(app.config.forums.is_empty());
    assert_eq!(app.screen, Screen::AddForum);
}

#[test]
fn topic_list_navigation_and_tab() {
    let mut app = App::new();
    app.handle_navigation(true);
    assert_eq!(app.sidebar_state.selected, Some(1));
    app.handle_tab();
    assert_eq!(app.focus, PaneFocus::Topics);
    app.handle_enter();
    assert_eq!(app.screen, Screen::TopicView);
}

#[test]
fn only_the_last_filter_counts() {
    let mut twice = App::with_data(latest(), categories());
    twice.sidebar_state.selected = Some(6); // category "dev"
    twice.select();
    twice.sidebar_state.selected = Some(7); // all categories
    twice.select();
    let mut once = App::with_data(latest(), categories());
    once.sidebar_state.selected = Some(7);
    once.select();
    assert_eq!(twice.current_filter, once.current_filter);
    let titles = |a: &App| a.topics.iter().map(|t| t.title.clone()).collect::<Vec<_>>();
    assert_eq!(titles(&twice), titles(&once));
    assert_eq!(twice.topics_state.selected, once.topics_state.selected);
}

#[test]
fn same_filter_twice_is_once() {
    let mut app = App::with_data(latest(), categories());
    app.sidebar_state.selected = Some(6);
    app.select();
    let titles: Vec<String> = app.topics.iter().map(|t| t.title.clone()).collect();
    let state = app.topics_state;
    app.select();
    assert_eq!(app.topics.iter().map(|t| t.title.clone()).collect::<Vec<_>>(), titles);
    assert_eq!(app.topics_state, state);
    assert_eq!(app.current_filter, ViewFilter::Category(1));
}

#[test]
fn apply_filter_last_counts_and_twice_is_once() {
    let titles = |a: &App| a.topics.iter().map(|t| t.title.clone()).collect::<Vec<_>>();
    let mut app = App::with_data(latest(), categories());
    app.apply_filter(ViewFilter::MyMessages);
    assert!(app.topics.is_empty());
    app.apply_filter(ViewFilter::Category(1));
    let mut direct = App::with_data(latest(), categories());
    direct.apply_filter(ViewFilter::Category(1));
    assert_eq!(titles(&app), titles(&direct));
    assert_eq!(titles(&app), vec!["Hello".to_string()]);
    assert_eq!(app.current_filter, direct.current_filter);
    assert_eq!(app.topics_state, direct.topics_state);
    let state = app.topics_state;
    app.apply_filter(ViewFilter::Category(1));
    assert_eq!(titles(&app), vec!["Hello".to_string()]);
    assert_eq!(app.topics_state, state);
}
