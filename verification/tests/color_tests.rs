use discourse_tui::color::{parse_color, splits_cleanly, Color};

#[test]
fn parses_six_hex_digits() {
    assert_eq!(parse_color("0088CC"), Some(Color::Rgb(0, 136, 204)));
    assert_eq!(parse_color("ffa500"), Some(Color::Rgb(255, 165, 0)));
}

#[test]
fn rejects_other_lengths_and_bad_digits() {
    assert_eq!(parse_color("#0088CC"), None);
    assert_eq!(parse_color("08C"), None);
    assert_eq!(parse_color(""), None);
    assert_eq!(parse_color("00g8CC"), None);
    assert_eq!(parse_color("-18800"), None);
}

#[test]
fn plus_sign_reads_as_a_digit_pair() {
    // u8::from_str_radix("+a", 16) is 10
    assert_eq!(parse_color("+a+b+c"), Some(Color::Rgb(10, 11, 12)));
}

#[test]
fn round_trip_of_any_colour() {
    for (r, g, b) in [(0u8, 0u8, 0u8), (255, 255, 255), (18, 52, 86), (171, 205, 239)] {
        let text = format!("{:02x}{:02X}{:02x}", r, g, b);
        assert_eq!(parse_color(&text), Some(Color::Rgb(r, g, b)));
    }
}

#[test]
fn splits_cleanly_finds_cut_characters() {
    assert!(splits_cleanly("0088CC"));
    assert!(splits_cleanly("short"));
    assert!(splits_cleanly("00é12"));
    assert!(!splits_cleanly("aé123"));
    assert!(!splits_cleanly("00aé1"));
    assert!(splits_cleanly("zzaé1"));
}
