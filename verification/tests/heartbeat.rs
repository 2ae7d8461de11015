use wsbridge::heartbeat::{heartbeat_reply, timestamp_ms};
use wsbridge::text::u128_to_dec;

#[test]
fn ping_command_gets_pong_with_millis() {
    assert_eq!(heartbeat_reply("PING x", 12345).as_deref(), Some("PONG 12345"));
    assert_eq!(heartbeat_reply("PING ", 0).as_deref(), Some("PONG 0"));
    assert_eq!(heartbeat_reply("PING anything at all", 7).as_deref(), Some("PONG 7"));
}

#[test]
fn non_matching_text_is_ignored() {
    assert!(heartbeat_reply("ping", 5).is_none());
    assert!(heartbeat_reply("PING", 5).is_none());
    assert!(heartbeat_reply("PONG 5", 5).is_none());
    assert!(heartbeat_reply(" PING x", 5).is_none());
    assert!(heartbeat_reply("", 5).is_none());
}

#[test]
fn pong_matches_shape_and_is_non_decreasing() {
    let t1 = timestamp_ms();
    let r1 = heartbeat_reply("PING a", t1).unwrap();
    let t2 = timestamp_ms();
    let r2 = heartbeat_reply("PING b", t2).unwrap();
    for r in [&r1, &r2] {
        let digits = r.strip_prefix("PONG ").unwrap();
        assert!(!digits.is_empty());
        assert!(digits.chars().all(|c| c.is_ascii_digit()));
    }
    let n1: u128 = r1.strip_prefix("PONG ").unwrap().parse().unwrap();
    let n2: u128 = r2.strip_prefix("PONG ").unwrap().parse().unwrap();
    assert_eq!(n1, t1);
    assert_eq!(n2, t2);
    assert!(n1 <= n2);
}

#[test]
fn clock_reads_as_current_epoch_millis() {
    let t = timestamp_ms();
    // after 2020-01-01 and before 5000-01-01
    assert!(t > 1_577_836_800_000);
    assert!(t < 95_617_584_000_000);
}

#[test]
fn decimal_rendering_exact() {
    assert_eq!(u128_to_dec(0), "0");
    assert_eq!(u128_to_dec(9), "9");
    assert_eq!(u128_to_dec(10), "10");
    assert_eq!(u128_to_dec(1234567890), "1234567890");
    assert_eq!(
        u128_to_dec(u128::MAX),
        "340282366920938463463374607431768211455"
    );
}
