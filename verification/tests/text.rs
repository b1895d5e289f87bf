use alarum::calendar::Weekday;
use alarum::model::{format_hm, to_12_hour, to_24_hour, Alarm, Repeat};
use alarum::text::{append_decimal, append_decimal2, trim_str, white_space};

#[test]
fn decimal_numerals() {
    let mut s = String::from("n=");
    append_decimal(&mut s, 0);
    assert_eq!(s, "n=0");
    let mut s = String::new();
    append_decimal(&mut s, 4_294_967_295);
    assert_eq!(s, "4294967295");
    let mut s = String::new();
    append_decimal2(&mut s, 7);
    assert_eq!(s, "07");
    let mut s = String::new();
    append_decimal2(&mut s, 123);
    assert_eq!(s, "123");
}

#[test]
fn trim_matches_std() {
    let cases = [
        "", "   ", "abc", "  abc  ", "\t\n x \r\u{b}\u{c}", "\u{3000}mid\u{85}", "\u{a0}a b\u{2028}",
        "\u{200b}zero-width\u{200b}", "\u{1680}\u{2000}\u{200a}\u{202f}\u{205f}x\u{2029}",
    ];
    for c in cases {
        assert_eq!(trim_str(c), c.trim(), "case {c:?}");
    }
    for c in ['\u{0}', ' ', '\u{9}', '\u{d}', '\u{e}', '\u{85}', '\u{200b}', '\u{3000}', 'a', '\u{feff}'] {
        assert_eq!(white_space(c), c.is_whitespace(), "char {c:?}");
    }
}

#[test]
fn clock_texts() {
    assert_eq!(format_hm(0, 0, true), "12:00 AM");
    assert_eq!(format_hm(12, 30, true), "12:30 PM");
    assert_eq!(format_hm(23, 59, true), "11:59 PM");
    assert_eq!(format_hm(0, 7, false), "00:07");
    assert_eq!(format_hm(9, 100, false), "09:100");
    assert_eq!(format_hm(30, 5, false), "30:05");
    assert_eq!(format_hm(30, 5, true), "6:05 PM");
}

#[test]
fn hour_conversions_round_trip() {
    for h in 0..24 {
        let (h12, pm) = to_12_hour(h);
        assert!((1..=12).contains(&h12));
        assert_eq!(to_24_hour(h12, pm), h);
    }
    for h12 in 1..=12 {
        for pm in [false, true] {
            assert_eq!(to_12_hour(to_24_hour(h12, pm)), (h12, pm));
        }
    }
    assert_eq!(to_24_hour(0, true), 12);
    assert_eq!(to_24_hour(13, false), 1);
}

#[test]
fn repeat_labels_and_days() {
    assert_eq!(Repeat::Once.label(), "Once");
    assert_eq!(Repeat::Daily.label(), "Every day");
    assert_eq!(Repeat::Weekdays.label(), "Weekdays");
    assert_eq!(Repeat::Weekends.label(), "Weekends");
    assert!(Repeat::Once.matches(Weekday::Sun));
    assert!(Repeat::Daily.matches(Weekday::Sat));
    assert!(Repeat::Weekdays.matches(Weekday::Fri));
    assert!(!Repeat::Weekdays.matches(Weekday::Sat));
    assert!(Repeat::Weekends.matches(Weekday::Sun));
    assert!(!Repeat::Weekends.matches(Weekday::Mon));
}

#[test]
fn alarm_names_and_labels() {
    let mut a = Alarm::new(7, 5);
    assert_eq!(a.display_name(), "Alarm");
    a.label = "  \t ".to_string();
    assert_eq!(a.display_name(), "Alarm");
    a.label = "  Pick up kids  ".to_string();
    assert_eq!(a.display_name(), "Pick up kids");
    assert_eq!(a.time_label_for(false), "07:05");
    assert_eq!(a.time_label_for(true), "7:05 AM");
}

#[test]
fn new_alarm_defaults_and_random_id() {
    let a = Alarm::new(8, 15);
    let b = Alarm::new(8, 15);
    assert!(a.enabled);
    assert_eq!((a.hour, a.minute, a.snooze_minutes), (8, 15, 5));
    assert_eq!(a.repeat, Repeat::Once);
    assert!(a.label.is_empty() && a.sound_path.is_empty());
    assert!(a.snooze_until.is_none() && a.last_fired.is_none());
    let mask = 0xF000_C000_0000_0000_0000u128;
    assert_eq!(a.id & mask, 0x4000_8000_0000_0000_0000u128);
    assert_eq!(uuid::Uuid::from_u128(a.id).get_version_num(), 4);
    assert_ne!(a.id, b.id);
    let c = a.copy();
    assert_eq!(c.id, a.id);
    assert_eq!(c.label, a.label);
}

#[test]
fn store_new_defaults() {
    let s = alarum::model::AlarmStore::new();
    assert!(s.alarms.is_empty());
    assert_eq!(s.default_snooze_minutes, 5);
    assert!(!s.use_12_hour);
    assert!(s.last_checked.is_none());
}
