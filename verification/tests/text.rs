use rimuru_bot::commands::fun::ball_emoji;
use rimuru_bot::commands::security::whitelist::extract_id;
use rimuru_bot::constants::emojis;
use rimuru_bot::json::{text_field, text_or_empty, unsigned_field};
use rimuru_bot::models::User;
use rimuru_bot::text::{chars_of, contains, ends_with, matches_at, starts_with, str_eq};

fn json(text: &str) -> serde_json::Value {
    serde_json::from_str(text).unwrap()
}

#[test]
fn characters_are_collected_in_order() {
    assert_eq!(chars_of("aé✅"), vec!['a', 'é', '✅']);
    assert_eq!(chars_of(""), Vec::<char>::new());
}

#[test]
fn strings_are_compared_by_their_characters() {
    assert!(str_eq("", ""));
    assert!(str_eq("abc", "abc"));
    assert!(!str_eq("abc", "abd"));
    assert!(!str_eq("abc", "ab"));
    assert!(!str_eq("ab", "abc"));
    assert!(str_eq("é✅", "é✅"));
}

#[test]
fn prefixes_and_suffixes_are_found() {
    assert!(starts_with("GUILD_UPDATE", "GUILD_"));
    assert!(!starts_with("GUILD", "GUILD_"));
    assert!(starts_with("x", ""));
    assert!(starts_with("", ""));
    assert!(!starts_with("", "x"));
    assert!(ends_with("wss://x/", "/"));
    assert!(!ends_with("wss://x", "/"));
    assert!(ends_with("", ""));
    assert!(!ends_with("", "/"));
    assert!(ends_with("é/", "/"));
}

#[test]
fn substrings_are_found_anywhere() {
    assert!(contains("CHANNEL_UPDATE", "UPDATE"));
    assert!(contains("UPDATE", "UPDATE"));
    assert!(contains("aUPDATEb", "UPDATE"));
    assert!(!contains("UPDAT", "UPDATE"));
    assert!(contains("abc", ""));
    assert!(contains("", ""));
    assert!(!contains("", "a"));
    assert!(contains("aab", "ab"));
}

#[test]
fn a_pattern_is_matched_at_a_position() {
    let s = chars_of("hello");
    assert!(matches_at(&s, &chars_of("ell"), 1));
    assert!(!matches_at(&s, &chars_of("ell"), 0));
    assert!(matches_at(&s, &chars_of(""), 5));
    assert!(!matches_at(&s, &chars_of(""), 6));
    assert!(!matches_at(&s, &chars_of("lo!"), 3));
    assert!(!matches_at(&s, &chars_of("o"), usize::MAX));
}

#[test]
fn ids_are_taken_out_of_mentions() {
    assert_eq!(extract_id("<@123>"), "123");
    assert_eq!(extract_id("<@!123>"), "123");
    assert_eq!(extract_id("<@&123>"), "123");
    assert_eq!(extract_id("<@!&123>"), "123");
    assert_eq!(extract_id("<@&!123>"), "!123");
    assert_eq!(extract_id("<@!!123>"), "!123");
    assert_eq!(extract_id("<@>"), "");
    assert_eq!(extract_id("<@!>"), "");
    assert_eq!(extract_id("<@&>"), "");
    assert_eq!(extract_id("<@!&>"), "");
}

#[test]
fn what_is_no_mention_has_no_id() {
    assert_eq!(extract_id("123"), "");
    assert_eq!(extract_id(""), "");
    assert_eq!(extract_id("<@"), "");
    assert_eq!(extract_id("<@123"), "");
    assert_eq!(extract_id("@123>"), "");
    assert_eq!(extract_id("<#123>"), "");
    assert_eq!(extract_id(" <@123>"), "");
    assert_eq!(extract_id("<@é>"), "é");
}

#[test]
fn the_eight_ball_shows_its_mood() {
    for idx in 0..=9 {
        assert_eq!(ball_emoji(idx), emojis::SUCCESS);
    }
    for idx in 10..=14 {
        assert_eq!(ball_emoji(idx), emojis::CRYSTAL);
    }
    for idx in 15..=19 {
        assert_eq!(ball_emoji(idx), emojis::ERROR);
    }
    assert_eq!(ball_emoji(usize::MAX), emojis::ERROR);
    assert_eq!(emojis::SUCCESS, "✅");
    assert_eq!(emojis::CRYSTAL, "🔮");
    assert_eq!(emojis::ERROR, "❌");
}

#[test]
fn the_avatar_of_a_user_has_an_address() {
    let mut user = User {
        id: "42".to_string(),
        username: "rimuru".to_string(),
        discriminator: None,
        avatar: Some("abcdef".to_string()),
        bot: false,
    };
    assert_eq!(user.avatar_url(), "https://cdn.discordapp.com/avatars/42/abcdef.png");
    user.avatar = None;
    assert_eq!(user.avatar_url(), "https://cdn.discordapp.com/embed/avatars/0.png");
}

#[test]
fn members_of_a_json_object_are_read() {
    let v = json(r#"{"name":"rimuru","age":3,"nested":{"name":"x"},"none":null}"#);
    assert_eq!(text_field(&v, "name"), Some("rimuru".to_string()));
    assert_eq!(text_field(&v, "age"), None);
    assert_eq!(text_field(&v, "nested"), None);
    assert_eq!(text_field(&v, "none"), None);
    assert_eq!(text_field(&v, "missing"), None);
    assert_eq!(text_or_empty(&v, "name"), "rimuru");
    assert_eq!(text_or_empty(&v, "age"), "");
    assert_eq!(unsigned_field(&v, "age"), Some(3));
    assert_eq!(unsigned_field(&v, "name"), None);
    assert_eq!(unsigned_field(&v, "missing"), None);
    let big = json(r#"{"n":18446744073709551615,"m":-1,"f":2.0}"#);
    assert_eq!(unsigned_field(&big, "n"), Some(u64::MAX));
    assert_eq!(unsigned_field(&big, "m"), None);
    assert_eq!(unsigned_field(&big, "f"), None);
    assert_eq!(text_field(&json(r#""name""#), "name"), None);
}
