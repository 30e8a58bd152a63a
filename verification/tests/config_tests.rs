use discourse_tui::config::{forum_id, form_forum, Config, CurrentForum, Forum};

fn forum(id: &str) -> Forum {
    Forum {
        id: id.to_string(),
        name: id.to_string(),
        url: format!("{}.example.com", id),
        api_key: None,
        username: None,
    }
}

fn config(selected: Option<&str>, ids: &[&str]) -> Config {
    Config {
        current: CurrentForum { selected: selected.map(|s| s.to_string()) },
        forums: ids.iter().map(|id| forum(id)).collect(),
    }
}

#[test]
fn default_config_is_empty() {
    let c = Config::default();
    assert!(c.forums.is_empty());
    assert_eq!(c.current.selected, None);
}

#[test]
fn add_forum_appends() {
    let mut c = config(Some("a"), &["a"]);
    c.add_forum(forum("b"));
    assert_eq!(c.forums.len(), 2);
    assert_eq!(c.forums[1].id, "b");
    assert_eq!(c.current.selected.as_deref(), Some("a"));
}

#[test]
fn remove_forum_clears_current_selection() {
    let mut c = config(Some("a"), &["a", "b", "a"]);
    c.remove_forum("a");
    assert_eq!(c.forums.len(), 1);
    assert_eq!(c.forums[0].id, "b");
    assert_eq!(c.current.selected, None);
}

#[test]
fn remove_forum_keeps_other_selection() {
    let mut c = config(Some("b"), &["a", "b", "c"]);
    c.remove_forum("a");
    let ids: Vec<&str> = c.forums.iter().map(|f| f.id.as_str()).collect();
    assert_eq!(ids, vec!["b", "c"]);
    assert_eq!(c.current.selected.as_deref(), Some("b"));
}

#[test]
fn remove_unknown_forum_changes_nothing() {
    let mut c = config(Some("b"), &["a", "b"]);
    c.remove_forum("zzz");
    assert_eq!(c.forums.len(), 2);
    assert_eq!(c.current.selected.as_deref(), Some("b"));
}

#[test]
fn get_current_forum_finds_first_match() {
    let mut c = config(Some("b"), &["a", "b", "c"]);
    c.forums[2].id = "b".to_string();
    c.forums[2].name = "second b".to_string();
    let f = c.get_current_forum().unwrap();
    assert_eq!(f.name, "b");
}

#[test]
fn get_current_forum_none_without_selection_or_match() {
    assert!(config(None, &["a"]).get_current_forum().is_none());
    assert!(config(Some("x"), &["a"]).get_current_forum().is_none());
}

#[test]
fn set_then_get_current_forum() {
    let mut c = config(None, &["a", "b"]);
    c.set_current_forum("b".to_string());
    assert_eq!(c.get_current_forum().unwrap().id, "b");
}

#[test]
fn added_forum_is_found_once_current() {
    let mut c = config(None, &[]);
    let f = form_forum(&"My Forum".to_string(), &"forum.example.com".to_string(), &String::new(), &String::new());
    let id = f.id.clone();
    c.add_forum(f);
    c.set_current_forum(id);
    assert_eq!(c.get_current_forum().unwrap().url, "forum.example.com");
}

#[test]
fn forum_id_lowercases_and_dashes() {
    assert_eq!(forum_id("My Cool Forum"), "my-cool-forum");
    assert_eq!(forum_id("ÄB C"), "äb-c");
    assert_eq!(forum_id(""), "");
}

#[test]
fn form_forum_optional_fields() {
    let f = form_forum(&"Rust Users".to_string(), &"users.rust-lang.org".to_string(), &"key".to_string(), &String::new());
    assert_eq!(f.id, "rust-users");
    assert_eq!(f.name, "Rust Users");
    assert_eq!(f.url, "users.rust-lang.org");
    assert_eq!(f.api_key.as_deref(), Some("key"));
    assert_eq!(f.username, None);
}
