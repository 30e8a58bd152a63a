use discourse_tui::api::{ChatChannel, Notification, NotificationData, Post};
use discourse_tui::app::ViewFilter as AppFilter;
use discourse_tui::app_simple::ViewFilter;
use discourse_tui::config::{Config, CurrentForum, Forum};
use discourse_tui::screens::chat_channels::channel_label;
use discourse_tui::screens::chat_messages::{chat_header, format_date, message_lines, text_width, wrap_text};
use discourse_tui::screens::forum_picker::{display_value, mask, selected_marker};
use discourse_tui::screens::main_screen::{count_suffix, topics_title, unread_marker};
use discourse_tui::screens::notifications::{header_text, notification_line, type_label, unread_count};
use discourse_tui::screens::post_view::{self, content_title, image_placeholder_text, post_body, post_header, strip_html};
use discourse_tui::screens::topic_view::{topic_details, topic_heading};
use discourse_tui::ui;

#[test]
fn wrap_text_fills_lines_greedily() {
    assert_eq!(wrap_text("the quick brown fox", 10), "the quick\nbrown fox\n");
    assert_eq!(wrap_text("a  b\n\nc", 80), "a b\n\nc\n");
    assert_eq!(wrap_text("unbreakable word", 4), "unbreakable\nword\n");
    assert_eq!(wrap_text("keep as is", 0), "keep as is");
    assert_eq!(wrap_text("", 5), "\n");
}

#[test]
fn wrap_text_counts_bytes() {
    // "é" takes two bytes, so "éé éé" is 9 bytes and does not fit in 8
    assert_eq!(wrap_text("éé éé", 8), "éé\néé\n");
    assert_eq!(wrap_text("éé éé", 9), "éé éé\n");
}

#[test]
fn wrapped_lines_keep_words_and_width() {
    let text = "lorem ipsum dolor sit amet consectetur adipiscing elit sed do";
    let out = wrap_text(text, 12);
    for line in out.lines() {
        assert!(line.len() <= 12 || !line.contains(' '));
    }
    let words_in: Vec<&str> = text.split_whitespace().collect();
    let words_out: Vec<&str> = out.split_whitespace().collect();
    assert_eq!(words_in, words_out);
}

#[test]
fn format_date_keeps_date_part() {
    assert_eq!(format_date("2024-01-15T10:30:00Z"), "2024-01-15");
    assert_eq!(format_date("yesterday"), "yesterday");
    assert_eq!(format_date(""), "");
    assert_eq!(post_view::format_date("2023-12-31T23:59:59.000Z"), "2023-12-31");
}

#[test]
fn message_lines_split_wrapped_text() {
    assert_eq!(message_lines("hello world", 5), vec!["hello", "world", ""]);
    assert_eq!(text_width(3), 0);
    assert_eq!(text_width(80), 76);
}

#[test]
fn chat_header_names_channel() {
    let channels = vec![ChatChannel { id: 1, title: "general".into() }, ChatChannel { id: 2, title: "dev".into() }];
    assert_eq!(chat_header(&channels, Some(2)), "Chat: #dev");
    assert_eq!(chat_header(&channels, Some(9)), "Chat: #Unknown Channel");
    assert_eq!(chat_header(&channels, None), "Chat: #Unknown Channel");
    assert_eq!(channel_label("general"), "#general ");
}

#[test]
fn strip_html_removes_tags_and_trims() {
    assert_eq!(strip_html("<p>Hello <b>world</b></p>\n"), "Hello world");
    assert_eq!(strip_html("  <br>  "), "");
    assert_eq!(strip_html("a > b"), "a  b");
    let s = strip_html("<div> x <i>y</i> </div>");
    assert!(!s.contains('<') && !s.contains('>'));
    assert_eq!(s, "x y");
}

fn post(raw: Option<&str>, cooked: &str) -> Post {
    Post {
        id: 5,
        username: "alice".into(),
        created_at: "2024-03-01T08:00:00Z".into(),
        cooked: cooked.into(),
        raw: raw.map(|s| s.to_string()),
        post_number: 3,
    }
}

#[test]
fn post_view_texts() {
    assert_eq!(post_header(&post(None, "")), "Post #3 by alice - 2024-03-01");
    assert_eq!(post_body(&post(Some("**raw**"), "<p>cooked</p>")), "**raw**");
    assert_eq!(post_body(&post(None, "<p>cooked</p>")), "cooked");
    assert_eq!(post_body(&post(Some("   "), "<p>cooked</p>")), "[Post content not available]");
    assert_eq!(content_title("héllo", 0), "Post Content (6 chars)");
    assert_eq!(content_title("hi", 2), "Post Content (2 chars, 2 images)");
    let urls = vec!["https://x.org/uploads/a.png".to_string(), "b.jpg".to_string(), "dir/".to_string()];
    assert_eq!(image_placeholder_text(&urls), "[ Image: a.png ]\n[ Image: b.jpg ]\n[ Image:  ]");
    assert_eq!(image_placeholder_text(&vec![]), "");
}

fn notification(read: bool, t: u32, fancy: Option<&str>, topic: Option<&str>, display: Option<&str>, original: Option<&str>) -> Notification {
    Notification {
        id: 1,
        notification_type: t,
        read,
        fancy_title: fancy.map(|s| s.to_string()),
        data: NotificationData {
            topic_title: topic.map(|s| s.to_string()),
            original_username: original.map(|s| s.to_string()),
            display_username: display.map(|s| s.to_string()),
        },
    }
}

#[test]
fn notification_texts() {
    let ns = vec![
        notification(false, 2, Some("Welcome"), None, Some("alice"), None),
        notification(true, 9, None, Some("Topic"), None, Some("bob")),
        notification(false, 99, None, None, None, None),
    ];
    assert_eq!(unread_count(&ns), 2);
    assert_eq!(header_text(2), "Notifications (2 unread)");
    assert_eq!(header_text(0), "Notifications (all read)");
    assert_eq!(notification_line(&ns[0]), "● alice replied to you: Welcome");
    assert_eq!(notification_line(&ns[1]), " bob replied to topic: Topic");
    assert_eq!(notification_line(&ns[2]), "● unknown notification: (no title)");
    assert_eq!(type_label(25), "reacted to post");
    assert_eq!(type_label(12), "invited to private message");
}

#[test]
fn forum_picker_texts() {
    let config = Config {
        current: CurrentForum { selected: Some("a".into()) },
        forums: vec![],
    };
    let a = Forum { id: "a".into(), name: "A".into(), url: "a.org".into(), api_key: None, username: None };
    let b = Forum { id: "b".into(), ..a.clone() };
    assert_eq!(selected_marker(&config, &a), "★ ");
    assert_eq!(selected_marker(&config, &b), "  ");
    assert_eq!(mask("abc"), "***");
    assert_eq!(mask("é"), "**");
    assert_eq!(display_value(2, "secret"), "******");
    assert_eq!(display_value(3, "key"), "***");
    assert_eq!(display_value(4, "bob"), "bob");
    assert_eq!(display_value(2, ""), "");
    assert_eq!(ui::display_value(2, "key"), "***");
    assert_eq!(ui::display_value(3, "bob"), "bob");
}

#[test]
fn main_screen_texts() {
    assert_eq!(topics_title(ViewFilter::AllTopics), "All Topics");
    assert_eq!(topics_title(ViewFilter::Category(3)), "Category Topics");
    assert_eq!(ui::topics_title(AppFilter::AllTopics), "Topics");
    assert_eq!(ui::topics_title(AppFilter::Tag(0)), "Tagged Topics");
    assert_eq!(unread_marker(true), "● ");
    assert_eq!(unread_marker(false), "  ");
    assert_eq!(count_suffix(12), " (12)");
    assert_eq!(count_suffix(0), " (0)");
}

#[test]
fn topic_view_texts() {
    assert_eq!(
        topic_details("Hello", "ducks", "dev-ops", 5),
        "Title: Hello\nAuthor: ducks\nCategory: dev-ops\nReplies: 5\n\n(Topic content would go here)\n\nPress Esc to go back"
    );
    assert_eq!(topic_heading(42), "Topic #42");
}

#[test]
fn strip_html_twice_is_once() {
    for html in ["<p>Hello <b>world</b></p>\n", "  <br>  ", "a < b", "<i> x </i> y >", "plain"] {
        let once = strip_html(html);
        assert_eq!(strip_html(&once), once);
    }
}

#[test]
fn wrap_text_keeps_words_and_fits_lines() {
    let text = "alpha beta gamma\ndelta extraordinarily epsilon";
    let out = wrap_text(text, 11);
    let words_in: Vec<&str> = text.split_whitespace().collect();
    let words_out: Vec<&str> = out.split_whitespace().collect();
    assert_eq!(words_in, words_out);
    assert!(out.ends_with('\n'));
    for line in out.split('\n') {
        assert!(line.len() <= 11 || words_in.contains(&line));
    }
    assert_eq!(out, "alpha beta\ngamma\ndelta\nextraordinarily\nepsilon\n");
}
