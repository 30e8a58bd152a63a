use discourse_tui::api::{ApiTopic, Category, LatestResponse, Poster, Post, TopicList, User};
use discourse_tui::app_simple::{App, AppScreen, ForumPickerMode, PaneFocus, ViewFilter};
use discourse_tui::config::{Config, CurrentForum, Forum};
use discourse_tui::handlers::{
    forum_loaded, topic_loaded,
    apply_filter, forum_base_url, forum_credentials, handle_forum_picker_input, handle_main_screen_input,
    handle_topic_view_input, load_forum_data, load_topic_posts, Command, Key,
};

fn forum(id: &str) -> Forum {
    Forum { id: id.to_string(), name: id.to_string(), url: format!("{}.org", id), api_key: None, username: None }
}

fn config(selected: Option<&str>, ids: &[&str]) -> Config {
    Config {
        current: CurrentForum { selected: selected.map(|s| s.to_string()) },
        forums: ids.iter().map(|id| forum(id)).collect(),
    }
}

fn loaded_app() -> App {
    let mut app = App::new(config(Some("a"), &["a"]));
    let latest = LatestResponse {
        topic_list: TopicList {
            topics: vec![
                ApiTopic { id: 1, title: "One".into(), reply_count: 2, category_id: Some(5), posters: vec![Poster { user_id: 3 }] },
                ApiTopic { id: 2, title: "Two".into(), reply_count: 0, category_id: Some(6), posters: vec![Poster { user_id: 4 }] },
            ],
        },
        users: vec![User { id: 3, username: "ducks".into() }, User { id: 4, username: "bob".into() }],
    };
    let categories = vec![
        Category { id: 5, name: "general".into(), color: "25AAE2".into() },
        Category { id: 6, name: "help".into(), color: "BF1E2E".into() },
    ];
    load_forum_data(&mut app, latest, categories);
    app
}

#[test]
fn new_app_start_screen_and_mode() {
    let app = App::new(config(None, &[]));
    assert_eq!(app.screen, AppScreen::ForumPicker);
    assert_eq!(app.forum_picker_mode, ForumPickerMode::AddForum);
    let app = App::new(config(Some("a"), &["a"]));
    assert_eq!(app.screen, AppScreen::MainScreen);
    assert_eq!(app.forum_picker_mode, ForumPickerMode::List);
    assert_eq!(app.topic_posts_list_state.selected, Some(0));
    assert!(app.post_image_urls.is_empty());
}

#[test]
fn goto_screen_sets_screen() {
    let mut app = App::new(config(None, &[]));
    app.goto_screen(AppScreen::Notifications);
    assert_eq!(app.screen, AppScreen::Notifications);
}

#[test]
fn picker_list_keys() {
    let mut app = App::new(config(None, &["a", "b"]));
    assert!(matches!(handle_forum_picker_input(Key::Char('1'), &mut app), Command::Nothing));
    assert_eq!(app.screen, AppScreen::ForumPicker);
    handle_forum_picker_input(Key::Char('k'), &mut app);
    assert_eq!(app.forum_picker_list_state.selected, Some(1));
    handle_forum_picker_input(Key::Down, &mut app);
    assert_eq!(app.forum_picker_list_state.selected, Some(0));
    match handle_forum_picker_input(Key::Enter, &mut app) {
        Command::SaveConfigAndLoadForum(f) => assert_eq!(f.id, "a"),
        other => panic!("unexpected {:?}", other),
    }
    assert_eq!(app.config.current.selected.as_deref(), Some("a"));
    assert!(matches!(handle_forum_picker_input(Key::Char('1'), &mut app), Command::Nothing));
    assert_eq!(app.screen, AppScreen::MainScreen);
    assert!(matches!(handle_forum_picker_input(Key::Char('q'), &mut app), Command::Quit));
}

#[test]
fn picker_delete() {
    let mut app = App::new(config(Some("b"), &["a", "b"]));
    app.forum_picker_list_state.selected = Some(1);
    assert!(matches!(handle_forum_picker_input(Key::Char('d'), &mut app), Command::SaveConfig));
    assert_eq!(app.config.forums.len(), 1);
    assert_eq!(app.config.current.selected, None);
    assert_eq!(app.forum_picker_list_state.selected, Some(0));
    handle_forum_picker_input(Key::Char('d'), &mut app);
    assert!(app.config.forums.is_empty());
    assert_eq!(app.forum_picker_mode, ForumPickerMode::AddForum);
    app.forum_picker_mode = ForumPickerMode::List;
    assert!(matches!(handle_forum_picker_input(Key::Char('d'), &mut app), Command::Nothing));
}

#[test]
fn picker_form_keys() {
    let mut app = App::new(config(None, &[]));
    for c in "Rust Forum".chars() {
        handle_forum_picker_input(Key::Char(c), &mut app);
    }
    assert_eq!(app.add_forum_state.name, "Rust Forum");
    handle_forum_picker_input(Key::Backspace, &mut app);
    assert_eq!(app.add_forum_state.name, "Rust Foru");
    handle_forum_picker_input(Key::Char('m'), &mut app);
    assert!(matches!(handle_forum_picker_input(Key::Enter, &mut app), Command::Nothing));
    handle_forum_picker_input(Key::Tab, &mut app);
    for c in "rust.org".chars() {
        handle_forum_picker_input(Key::Char(c), &mut app);
    }
    handle_forum_picker_input(Key::Tab, &mut app);
    handle_forum_picker_input(Key::Tab, &mut app);
    for c in "bob".chars() {
        handle_forum_picker_input(Key::Char(c), &mut app);
    }
    assert_eq!(app.add_forum_state.username, "bob");
    assert!(app.add_forum_state.user_api_key.is_empty());
    // Esc does nothing while no forum exists
    handle_forum_picker_input(Key::Esc, &mut app);
    assert_eq!(app.forum_picker_mode, ForumPickerMode::AddForum);
    match handle_forum_picker_input(Key::Enter, &mut app) {
        Command::SaveConfigAndLoadForum(f) => {
            assert_eq!(f.id, "rust-forum");
            assert_eq!(f.url, "rust.org");
            assert_eq!(f.api_key, None);
            assert_eq!(f.username.as_deref(), Some("bob"));
        }
        other => panic!("unexpected {:?}", other),
    }
    assert_eq!(app.config.forums.len(), 1);
    assert_eq!(app.config.current.selected.as_deref(), Some("rust-forum"));
    handle_forum_picker_input(Key::Esc, &mut app);
    assert_eq!(app.forum_picker_mode, ForumPickerMode::List);
}

#[test]
fn typing_q_in_form_quits() {
    let mut app = App::new(config(None, &[]));
    assert!(matches!(handle_forum_picker_input(Key::Char('q'), &mut app), Command::Quit));
    assert!(app.add_forum_state.name.is_empty());
}

#[test]
fn tab_cycles_four_fields() {
    let mut app = App::new(config(None, &[]));
    for expected in [1, 2, 3, 0, 1] {
        handle_forum_picker_input(Key::Tab, &mut app);
        assert_eq!(app.add_forum_state.active_field, expected);
    }
}

#[test]
fn load_forum_data_fills_main_screen() {
    let app = loaded_app();
    assert_eq!(app.all_topics.len(), 2);
    assert_eq!(app.topics.len(), 2);
    assert_eq!(app.all_topics[0].category, "general");
    assert_eq!(app.all_topics[1].author, "bob");
    assert_eq!(app.sidebar_items.len(), 8);
    assert_eq!(app.sidebar_items[6].label, "■ help");
    assert_eq!(app.current_filter, ViewFilter::AllTopics);
    assert_eq!(app.focus, PaneFocus::Sidebar);
}

#[test]
fn main_screen_keys() {
    let mut app = loaded_app();
    handle_main_screen_input(Key::Up, &mut app);
    assert_eq!(app.sidebar_state.selected, Some(7));
    handle_main_screen_input(Key::Char('j'), &mut app);
    assert_eq!(app.sidebar_state.selected, Some(0));
    handle_main_screen_input(Key::Down, &mut app);
    assert!(matches!(handle_main_screen_input(Key::Enter, &mut app), Command::Nothing));
    assert_eq!(app.current_filter, ViewFilter::MyPosts);
    assert_eq!(app.topics.len(), 1);
    handle_main_screen_input(Key::Tab, &mut app);
    assert_eq!(app.focus, PaneFocus::Topics);
    match handle_main_screen_input(Key::Enter, &mut app) {
        Command::LoadTopic(id) => assert_eq!(id, 1),
        other => panic!("unexpected {:?}", other),
    }
    assert_eq!(app.selected_topic_idx, 0);
    handle_main_screen_input(Key::Char('5'), &mut app);
    assert_eq!(app.screen, AppScreen::ForumPicker);
    assert!(matches!(handle_main_screen_input(Key::Char('q'), &mut app), Command::Quit));
}

#[test]
fn enter_on_empty_topic_list_does_nothing() {
    let mut app = loaded_app();
    apply_filter(&mut app, ViewFilter::MyMessages);
    app.focus = PaneFocus::Topics;
    assert!(matches!(handle_main_screen_input(Key::Enter, &mut app), Command::Nothing));
}

#[test]
fn apply_filter_by_category_index() {
    let mut app = loaded_app();
    apply_filter(&mut app, ViewFilter::Category(1));
    assert_eq!(app.topics.len(), 1);
    assert_eq!(app.topics[0].title, "Two");
    apply_filter(&mut app, ViewFilter::Category(7));
    assert_eq!(app.topics.len(), 2);
    apply_filter(&mut app, ViewFilter::Tag(0));
    assert_eq!(app.topics.len(), 2);
}

#[test]
fn topic_view_keys() {
    let mut app = loaded_app();
    load_topic_posts(
        &mut app,
        vec![
            Post { id: 1, username: "a".into(), created_at: "2024-01-01T00:00:00Z".into(), cooked: "<p>x</p>".into(), raw: None, post_number: 1 },
            Post { id: 2, username: "b".into(), created_at: "2024-01-02T00:00:00Z".into(), cooked: "<p>y</p>".into(), raw: None, post_number: 2 },
        ],
    );
    assert_eq!(app.topic_posts_list_state.selected, Some(0));
    handle_topic_view_input(Key::Char('k'), &mut app);
    assert_eq!(app.topic_posts_list_state.selected, Some(1));
    handle_topic_view_input(Key::Char('j'), &mut app);
    assert_eq!(app.topic_posts_list_state.selected, Some(0));
    handle_topic_view_input(Key::Esc, &mut app);
    assert_eq!(app.screen, AppScreen::MainScreen);
}

#[test]
fn base_url_and_credentials() {
    assert_eq!(forum_base_url("meta.discourse.org"), "https://meta.discourse.org");
    assert_eq!(forum_base_url("http://local:3000"), "http://local:3000");
    assert_eq!(forum_base_url("https://x.org"), "https://x.org");
    assert_eq!(forum_base_url(&forum_base_url("x.org")), "https://x.org");
    let mut f = forum("a");
    assert_eq!(forum_credentials(&f), None);
    f.api_key = Some("k".into());
    assert_eq!(forum_credentials(&f), None);
    f.username = Some("u".into());
    assert_eq!(forum_credentials(&f), Some(("k".to_string(), "u".to_string())));
}

#[test]
fn arrivals_show_their_screens() {
    let mut app = App::new(config(Some("a"), &["a"]));
    app.goto_screen(AppScreen::ForumPicker);
    forum_loaded(&mut app, LatestResponse { topic_list: TopicList { topics: vec![] }, users: vec![] }, vec![]);
    assert_eq!(app.screen, AppScreen::MainScreen);
    assert_eq!(app.sidebar_items.len(), 6);
    topic_loaded(&mut app, vec![]);
    assert_eq!(app.screen, AppScreen::TopicView);
    assert!(app.current_topic_posts.is_empty());
}

#[test]
fn filter_twice_is_once_and_last_counts() {
    let mut app = loaded_app();
    apply_filter(&mut app, ViewFilter::MyPosts);
    assert_eq!(app.topics.len(), 1);
    assert_eq!(app.topics[0].author, "ducks");
    let state = app.topics_state;
    apply_filter(&mut app, ViewFilter::MyPosts);
    assert_eq!(app.topics.len(), 1);
    assert_eq!(app.topics_state, state);
    apply_filter(&mut app, ViewFilter::Category(1));
    let mut direct = loaded_app();
    apply_filter(&mut direct, ViewFilter::Category(1));
    assert_eq!(app.topics.len(), direct.topics.len());
    assert_eq!(app.topics[0].title, direct.topics[0].title);
    assert_eq!(app.current_filter, direct.current_filter);
    assert_eq!(app.topics_state, direct.topics_state);
}

#[test]
fn both_clients_show_the_same_topics() {
    let latest = LatestResponse {
        topic_list: TopicList {
            topics: vec![
                ApiTopic { id: 1, title: "One".into(), reply_count: 2, category_id: Some(5), posters: vec![Poster { user_id: 3 }] },
                ApiTopic { id: 2, title: "Two".into(), reply_count: 0, category_id: Some(6), posters: vec![Poster { user_id: 4 }] },
            ],
        },
        users: vec![User { id: 3, username: "ducks".into() }, User { id: 4, username: "bob".into() }],
    };
    let categories = vec![
        Category { id: 5, name: "general".into(), color: "25AAE2".into() },
        Category { id: 6, name: "help".into(), color: "BF1E2E".into() },
    ];
    let mut single = discourse_tui::app::App::with_data(latest, categories);
    single.sidebar_state.selected = Some(6); // category "help"
    single.select();
    let mut multi = loaded_app();
    apply_filter(&mut multi, ViewFilter::Category(1));
    assert_eq!(single.topics.len(), multi.topics.len());
    for (s, m) in single.topics.iter().zip(multi.topics.iter()) {
        assert_eq!((s.id, &s.title, &s.author, &s.category), (m.id, &m.title, &m.author, &m.category));
    }
    assert_eq!(single.topics_state.selected, multi.topics_state.selected);
}
