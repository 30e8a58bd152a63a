use discourse_tui::images::{extract_image_urls, urls_from_captures};

#[test]
fn finds_img_sources_in_order() {
    let html = r#"<p>Hi</p><img src="https://a.example/1.png" alt="x"><img class='c' src='/uploads/2.jpg'>"#;
    assert_eq!(
        extract_image_urls(html),
        vec!["https://a.example/1.png".to_string(), "/uploads/2.jpg".to_string()]
    );
}

#[test]
fn no_images_gives_nothing() {
    assert!(extract_image_urls("<p>no pictures here</p>").is_empty());
    assert!(extract_image_urls("<img>").is_empty());
}

#[test]
fn absent_captures_are_dropped() {
    let caps = vec![Some("a".to_string()), None, Some("b".to_string())];
    assert_eq!(urls_from_captures(caps), vec!["a".to_string(), "b".to_string()]);
}
