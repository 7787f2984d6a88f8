use universe_sim::color::random_color;
use universe_sim::color::Rgb;
use universe_sim::log_messages::Log;
use universe_sim::logging::log;
use universe_sim::logging::LogBuffer;
use universe_sim::logging::LogEntry;
use universe_sim::logging::LogLevel;
use universe_sim::numfmt::byte_to_hex;
use universe_sim::numfmt::i32_to_dec;
use universe_sim::numfmt::u64_to_dec;
use universe_sim::numfmt::usize_to_dec;
use universe_sim::rng::sample_range;
use universe_sim::rng::sample_ratio;

#[test]
fn log_entry_new_keeps_its_fields() {
    let e = LogEntry::new(LogLevel::UserAction, "did a thing".to_string());
    assert_eq!(e.level, LogLevel::UserAction);
    assert_eq!(e.message, "did a thing");
}

#[test]
fn published_entries_reach_a_subscriber() {
    let (bus, mut rx) = tokio::sync::broadcast::channel(500);
    log(&bus, LogEntry::new(LogLevel::Info, "first".to_string()));
    log(&bus, LogEntry::new(LogLevel::Universe, "second".to_string()));
    let a = rx.try_recv().unwrap();
    let b = rx.try_recv().unwrap();
    assert_eq!(a.level, LogLevel::Info);
    assert_eq!(a.message, "first");
    assert_eq!(b.level, LogLevel::Universe);
    assert_eq!(b.message, "second");
    assert!(rx.try_recv().is_err());
}

#[test]
fn publishing_without_subscribers_is_harmless() {
    let (bus, rx) = tokio::sync::broadcast::channel(10);
    drop(rx);
    log(&bus, LogEntry::new(LogLevel::Info, "nobody listens".to_string()));
}

#[test]
fn retention_ring_drops_the_oldest() {
    let mut buf = LogBuffer::new();
    for i in 0..1005u32 {
        buf.push(LogEntry::new(LogLevel::Info, format!("entry {}", i)));
    }
    assert_eq!(buf.len(), 1000);
    let all = buf.recent(5000);
    assert_eq!(all.len(), 1000);
    assert_eq!(all[0].message, "entry 5");
    assert_eq!(all[999].message, "entry 1004");
}

#[test]
fn recent_returns_the_tail_oldest_first() {
    let mut buf = LogBuffer::new();
    for i in 0..10u32 {
        buf.push(LogEntry::new(LogLevel::Info, format!("e{}", i)));
    }
    let last3 = buf.recent(3);
    assert_eq!(last3.len(), 3);
    assert_eq!(last3[0].message, "e7");
    assert_eq!(last3[2].message, "e9");
    assert_eq!(buf.recent(0).len(), 0);
    assert_eq!(buf.recent(100).len(), 10);
}

#[test]
fn decimal_rendering_is_exact() {
    assert_eq!(u64_to_dec(0), "0");
    assert_eq!(u64_to_dec(7), "7");
    assert_eq!(u64_to_dec(1234), "1234");
    assert_eq!(u64_to_dec(1000000), "1000000");
    assert_eq!(usize_to_dec(424242), "424242");
    assert_eq!(i32_to_dec(0), "0");
    assert_eq!(i32_to_dec(20), "20");
    assert_eq!(i32_to_dec(-45), "-45");
    assert_eq!(i32_to_dec(i32::MIN), "-2147483648");
}

#[test]
fn hex_rendering_is_exact() {
    assert_eq!(byte_to_hex(0), "00");
    assert_eq!(byte_to_hex(10), "0A");
    assert_eq!(byte_to_hex(171), "AB");
    assert_eq!(byte_to_hex(255), "FF");
}

#[test]
fn color_hex_is_exact() {
    assert_eq!(Log::color_hex(Rgb::new(255, 0, 171)), "#FF00AB");
    assert_eq!(Log::color_hex(Rgb::new(80, 160, 240)), "#50A0F0");
}

#[test]
fn universe_label_is_exact() {
    assert_eq!(Log::universe_label("Alpha", Rgb::new(255, 0, 170)), "Alpha[#FF00AA]");
}

#[test]
fn info_message_is_exact() {
    let e = Log::info("hello");
    assert_eq!(e.level, LogLevel::Info);
    assert_eq!(e.message, "> hello");
}

#[test]
fn created_message_is_exact() {
    let e = Log::created("Alpha", Rgb::new(255, 0, 170));
    assert_eq!(e.level, LogLevel::Info);
    assert_eq!(e.message, "> Created universe Alpha[#FF00AA]");
}

#[test]
fn attack_message_is_exact() {
    let e = Log::attack("A", Rgb::new(255, 0, 0), "B", Rgb::new(0, 255, 0), 12);
    assert_eq!(e.level, LogLevel::Universe);
    assert_eq!(e.message, "⚔ A[#FF0000] dealt 12 damage to B[#00FF00]");
}

#[test]
fn heal_message_is_exact() {
    let e = Log::heal("A", Rgb::new(255, 0, 0), "B", Rgb::new(0, 255, 0), 9);
    assert_eq!(e.level, LogLevel::Universe);
    assert_eq!(e.message, "✚ A[#FF0000] healed B[#00FF00] by 9");
}

#[test]
fn collapsed_message_is_exact() {
    let e = Log::collapsed("A", Rgb::new(255, 0, 0));
    assert_eq!(e.level, LogLevel::Universe);
    assert_eq!(e.message, "☠ A[#FF0000] has COLLAPSED");
}

#[test]
fn relationship_message_is_exact() {
    let e = Log::relationship_announcement(
        "A",
        Rgb::new(255, 0, 0),
        "B",
        Rgb::new(0, 255, 0),
        "ENEMIES",
        "⚔️ War has been declared",
    );
    assert_eq!(e.level, LogLevel::Relationship);
    assert_eq!(
        e.message,
        "☯ A[#FF0000] and B[#00FF00] are now ENEMIES. ⚔️ War has been declared"
    );
}

#[test]
fn user_action_message_is_exact() {
    let e = Log::user_action("operator", "paused", "Alpha");
    assert_eq!(e.level, LogLevel::UserAction);
    assert_eq!(e.message, "> operator paused Alpha");
}

#[test]
fn sampled_values_respect_their_bounds() {
    for _ in 0..500 {
        let v = sample_range(7, 20);
        assert!(7 <= v && v <= 20);
    }
    let v = sample_range(5, 5);
    assert_eq!(v, 5);
    assert!(sample_ratio(10, 10));
    assert!(!sample_ratio(0, 10));
    for _ in 0..100 {
        let c = random_color();
        assert!(50 <= c.r && c.r <= 254);
        assert!(50 <= c.g && c.g <= 254);
        assert!(50 <= c.b && c.b <= 254);
    }
}
