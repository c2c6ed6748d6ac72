use std::convert::TryFrom;

use wiiuse::button_flags::ALL_BUTTON_BITS;
use wiiuse::buttons::{self, UnknownWiimoteButtonError};
use wiiuse::control::{
    check_found, connect_outcome, disconnect_outcome, found_count, is_button_pressed, poll_count,
    rumble_arg, slot_index, to_c_int, version_text, ConnectError,
};
use wiiuse::decimal::u32_to_decimal;
use wiiuse::events::{UnknownEventError, WiiuseEvent};
use wiiuse::{WiimoteButton, WiimoteId, WiimoteLeds, DEFAULT_EXPANSION_TIMEOUT, DEFAULT_POLL_TIMEOUT};

#[test]
fn button_codes_decode_to_buttons() {
    let cases = [
        (0x0008u32, buttons::WiimoteButton::A),
        (0x0004, buttons::WiimoteButton::B),
        (0x0002, buttons::WiimoteButton::One),
        (0x0080, buttons::WiimoteButton::Home),
        (0x0010, buttons::WiimoteButton::Minus),
        (0x0100, buttons::WiimoteButton::Left),
        (0x0200, buttons::WiimoteButton::Right),
        (0x0400, buttons::WiimoteButton::Down),
        (0x0800, buttons::WiimoteButton::Up),
        (0x1000, buttons::WiimoteButton::Plus),
    ];
    for (code, button) in cases {
        assert_eq!(buttons::WiimoteButton::try_from(code), Ok(button));
    }
}

#[test]
fn button_code_of_two_is_not_decoded() {
    let err = buttons::WiimoteButton::try_from(buttons::WIIMOTE_BUTTON_TWO).unwrap_err();
    assert_eq!(err.code(), 1);
}

#[test]
fn unknown_button_code_is_an_error_with_its_code() {
    let err: UnknownWiimoteButtonError = buttons::WiimoteButton::try_from(0x2000).unwrap_err();
    assert_eq!(err.code(), 0x2000);
    assert_eq!(err.to_string(), "unknown wiimote button code 8192");
    let zero = buttons::WiimoteButton::try_from(0).unwrap_err();
    assert_eq!(zero.to_string(), "unknown wiimote button code 0");
}

#[test]
fn event_codes_decode_to_events() {
    assert!(matches!(WiiuseEvent::from(0), WiiuseEvent::NoEvent));
    assert!(matches!(WiiuseEvent::from(1), WiiuseEvent::Event));
    assert!(matches!(WiiuseEvent::from(2), WiiuseEvent::Status));
    assert!(matches!(WiiuseEvent::from(4), WiiuseEvent::Disconnect));
    assert!(matches!(WiiuseEvent::from(6), WiiuseEvent::ReadData));
}

#[test]
fn unknown_event_codes_read_as_no_event() {
    assert!(matches!(WiiuseEvent::from(3), WiiuseEvent::NoEvent));
    assert!(matches!(WiiuseEvent::from(5), WiiuseEvent::NoEvent));
    assert!(matches!(WiiuseEvent::from(u32::MAX), WiiuseEvent::NoEvent));
    let ev: WiiuseEvent = 2u32.into();
    assert!(matches!(ev, WiiuseEvent::Status));
}

#[test]
fn unknown_event_error_message() {
    let err = UnknownEventError::new(77);
    assert_eq!(err.code(), 77);
    assert_eq!(err.to_string(), "Unbekannter C-Event-Code empfangen: 77");
}

#[test]
fn decimal_rendering_matches_format() {
    for n in [0u32, 7, 9, 10, 42, 100, 1234567, u32::MAX] {
        assert_eq!(u32_to_decimal(n), format!("{}", n));
    }
}

#[test]
fn leds_start_off() {
    let leds = WiimoteLeds::new();
    assert!(!leds.0 && !leds.1 && !leds.2 && !leds.3);
    assert_eq!(leds.bitmask(), 0);
    let d = WiimoteLeds::default();
    assert_eq!(d.bitmask(), 0);
}

#[test]
fn led_bitmask_values() {
    assert_eq!(WiimoteLeds::new().on_1().bitmask(), 0x10);
    assert_eq!(WiimoteLeds::new().on_2().bitmask(), 0x20);
    assert_eq!(WiimoteLeds::new().on_3().bitmask(), 0x30);
    assert_eq!(WiimoteLeds::new().on_4().bitmask(), 0x40);
    assert_eq!(WiimoteLeds::new().on_1().on_4().bitmask(), 0x50);
    assert_eq!(WiimoteLeds::new().on_1().on_2().on_3().on_4().bitmask(), 0x70);
}

#[test]
fn led3_mask_equals_leds_1_and_2() {
    assert_eq!(
        WiimoteLeds::new().on_3().bitmask(),
        WiimoteLeds::new().on_1().on_2().bitmask()
    );
}

#[test]
fn lighting_leds_commutes_and_is_idempotent() {
    let a = WiimoteLeds::new().on_2().on_4();
    let b = WiimoteLeds::new().on_4().on_2();
    assert_eq!((a.0, a.1, a.2, a.3), (b.0, b.1, b.2, b.3));
    let c = WiimoteLeds::new().on_1().on_1();
    let d = WiimoteLeds::new().on_1();
    assert_eq!((c.0, c.1, c.2, c.3), (d.0, d.1, d.2, d.3));
    let e = WiimoteLeds(false, true, false, false).on_3();
    assert_eq!((e.0, e.1, e.2, e.3), (false, true, true, false));
}

#[test]
fn lighting_an_led_keeps_the_mask_bits() {
    let before = WiimoteLeds::new().on_2();
    let after = before.on_4();
    assert_eq!(after.bitmask() & before.bitmask(), before.bitmask());
}

#[test]
fn button_flags_values() {
    assert_eq!(WiimoteButton::left().bits(), 0x0001);
    assert_eq!(WiimoteButton::right().bits(), 0x0002);
    assert_eq!(WiimoteButton::down().bits(), 0x0004);
    assert_eq!(WiimoteButton::up().bits(), 0x0008);
    assert_eq!(WiimoteButton::plus().bits(), 0x0010);
    assert_eq!(WiimoteButton::two().bits(), 0x0100);
    assert_eq!(WiimoteButton::one().bits(), 0x0200);
    assert_eq!(WiimoteButton::b().bits(), 0x0400);
    assert_eq!(WiimoteButton::a().bits(), 0x0800);
    assert_eq!(WiimoteButton::minus().bits(), 0x1000);
    assert_eq!(WiimoteButton::home().bits(), 0x8000);
    assert_eq!(WiimoteButton::all().bits(), ALL_BUTTON_BITS);
    assert_eq!(WiimoteButton::empty().bits(), 0);
}

#[test]
fn button_flags_set_operations() {
    let ab = WiimoteButton::a().union(WiimoteButton::b());
    assert_eq!(ab.bits(), 0x0C00);
    assert!(ab.contains(WiimoteButton::a()));
    assert!(ab.contains(WiimoteButton::b()));
    assert!(!ab.contains(WiimoteButton::home()));
    assert!(ab.intersects(WiimoteButton::a().union(WiimoteButton::up())));
    assert!(!ab.intersects(WiimoteButton::up()));
    assert!(WiimoteButton::empty().is_empty());
    assert!(!ab.is_empty());
    assert!(WiimoteButton::all().contains(ab));
    assert_eq!(ab, WiimoteButton::b().union(WiimoteButton::a()));
}

#[test]
fn button_flags_from_bits() {
    assert_eq!(WiimoteButton::from_bits(0x0801), Some(WiimoteButton::a().union(WiimoteButton::left())));
    assert_eq!(WiimoteButton::from_bits(0x0020), None);
    assert_eq!(WiimoteButton::from_bits_truncate(0xFFFF).bits(), 0x9F1F);
    let s = WiimoteButton::home().union(WiimoteButton::two());
    assert_eq!(WiimoteButton::from_bits_truncate(s.bits()), s);
}

#[test]
fn pressed_buttons_are_seen() {
    let word: u16 = 0x0800 | 0x0001;
    assert!(is_button_pressed(word, WiimoteButton::a()));
    assert!(is_button_pressed(word, WiimoteButton::left().union(WiimoteButton::home())));
    assert!(!is_button_pressed(word, WiimoteButton::b()));
    assert!(!is_button_pressed(word, WiimoteButton::empty()));
    assert!(!is_button_pressed(0, WiimoteButton::all()));
}

#[test]
fn c_int_conversion() {
    assert_eq!(to_c_int(4), 4);
    assert_eq!(to_c_int(0x7fff_ffff), i32::MAX);
    assert_eq!(to_c_int(0x8000_0000), i32::MIN);
    assert_eq!(to_c_int(u32::MAX), -1);
}

#[test]
fn found_count_clamps_failures() {
    assert_eq!(found_count(-1), 0);
    assert_eq!(found_count(i32::MIN), 0);
    assert_eq!(found_count(0), 0);
    assert_eq!(found_count(3), 3);
}

#[test]
fn poll_count_clamps_failures() {
    assert_eq!(poll_count(2), 2);
    assert_eq!(poll_count(0), 0);
    assert_eq!(poll_count(-1), 0);
    assert_eq!(poll_count(i32::MIN), 0);
}

#[test]
fn rumble_argument() {
    assert_eq!(rumble_arg(true), 1);
    assert_eq!(rumble_arg(false), 0);
}

#[test]
fn slot_lookup() {
    let id = WiimoteId(1);
    assert_eq!(*id, 1);
    assert_eq!(slot_index(*id, 4), Some(1));
    assert_eq!(slot_index(3, 4), Some(3));
    assert_eq!(slot_index(4, 4), None);
    assert_eq!(slot_index(0, 0), None);
}

#[test]
fn connect_all_without_controller() {
    let err = check_found(0).unwrap_err();
    assert_eq!(err, ConnectError::NoControllerFound);
    assert_eq!(err.to_string(), "no controller found");
    assert_eq!(check_found(2), Ok(()));
}

#[test]
fn connect_all_outcomes() {
    assert_eq!(connect_outcome(2, 2), Ok(2));
    assert_eq!(connect_outcome(3, 1), Ok(1));
    let err = connect_outcome(3, 0).unwrap_err();
    assert_eq!(err, ConnectError::ConnectionFailed { found: 3 });
    assert_eq!(err.to_string(), "connection error (found 3)");
}

#[test]
fn disconnect_outcomes() {
    assert_eq!(disconnect_outcome(true), Ok(()));
    assert_eq!(disconnect_outcome(false), Err("wiimot with id {} not found".to_string()));
}

#[test]
fn version_text_cases() {
    assert_eq!(version_text(None), "unknown");
    assert_eq!(version_text(Some(b"0.15.5")), "0.15.5");
    assert_eq!(version_text(Some("größe".as_bytes())), "größe");
    assert_eq!(version_text(Some(&[0x30, 0xff, 0x31])), "utf8-error");
    assert_eq!(version_text(Some(&[])), "");
}

#[test]
fn default_timeouts() {
    assert_eq!(DEFAULT_EXPANSION_TIMEOUT, 100);
    assert_eq!(DEFAULT_POLL_TIMEOUT, 100);
}

#[test]
fn button_flags_intersection_difference_insert_remove() {
    let ab = WiimoteButton::a().union(WiimoteButton::b());
    let bh = WiimoteButton::b().union(WiimoteButton::home());
    assert_eq!(ab.intersection(bh), WiimoteButton::b());
    assert_eq!(ab.difference(bh), WiimoteButton::a());
    assert!(ab.intersection(WiimoteButton::up()).is_empty());
    let mut s = WiimoteButton::empty();
    s.insert(WiimoteButton::up());
    s.insert(WiimoteButton::down());
    assert_eq!(s.bits(), 0x000C);
    s.remove(WiimoteButton::up());
    assert_eq!(s, WiimoteButton::down());
    s.remove(WiimoteButton::home());
    assert_eq!(s, WiimoteButton::down());
    assert!(WiimoteButton::all().is_all());
    assert!(!ab.is_all());
    assert!(WiimoteButton::from_bits_truncate(0xFFFF).is_all());
}
