use weather_applet::applet::{Message, Weather};
use weather_applet::config::WeatherConfig;
use weather_applet::text::{i32_text, u64_text};
use weather_applet::weather::geocode_query;

#[test]
fn integer_texts_match_the_standard_formatting() {
    for v in [0i32, 1, 9, 10, 11, 99, 100, 12345, -1, -9, -10, -12345, i32::MAX, i32::MIN] {
        assert_eq!(i32_text(v), v.to_string());
    }
    for v in [0u64, 7, 10, 60, 600, 1_000_000, u64::MAX / 60, u64::MAX] {
        assert_eq!(u64_text(v), v.to_string());
    }
}

fn interval_after_typing(text: &str) -> u64 {
    let (mut w, _) = Weather::init(WeatherConfig::default(), false);
    w.update(Message::UpdateRefreshIntervalMinutes(text.to_string()));
    w.refresh_interval_minutes
}

#[test]
fn refresh_interval_text_follows_the_standard_integer_rules() {
    assert_eq!(interval_after_typing("42"), 42);
    assert_eq!(interval_after_typing("+42"), 42);
    assert_eq!(interval_after_typing("007"), 7);
    assert_eq!(interval_after_typing("18446744073709551615"), u64::MAX);
    for bad in ["", "+", "-1", "-0", " 1", "1 ", "1_000", "1.0", "++1", "x", "١", "18446744073709551616"] {
        assert_eq!(interval_after_typing(bad), 10, "{bad:?}");
    }
}

fn searched_name(query: &str) -> Option<String> {
    geocode_query(query).map(|params| params[0].1.clone())
}

#[test]
fn search_text_loses_unicode_white_space_at_both_ends() {
    assert_eq!(searched_name("  a b  ").as_deref(), Some("a b"));
    assert_eq!(
        searched_name("\t\n\u{b}\u{c}\r x \u{85}\u{a0}\u{1680}\u{2000}\u{200a}\u{2028}\u{2029}\u{202f}\u{205f}\u{3000}").as_deref(),
        Some("x")
    );
    assert_eq!(searched_name("\u{200b}x").as_deref(), Some("\u{200b}x"));
    assert_eq!(searched_name(""), None);
    assert_eq!(searched_name("   "), None);
}
