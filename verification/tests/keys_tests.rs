use evdev::Key;
use kindle_button_mapper::bindings::{collect_dpad_bindings, collect_key_bindings, collect_trigger_bindings};
use kindle_button_mapper::keys::{
    direction_from_lowercase, key_code_from_name, parse_dpad_direction, parse_key, parse_trigger,
    trigger_from_lowercase, DpadDirection, Trigger,
};
use kindle_button_mapper::text::{parse_u16_radix, starts_with, str_eq};

#[test]
fn key_codes_in_decimal() {
    assert_eq!(parse_key("28"), Some(28));
    assert_eq!(parse_key("+28"), Some(28));
    assert_eq!(parse_key("0"), Some(0));
    assert_eq!(parse_key("65535"), Some(65535));
    assert_eq!(parse_key("65536"), None);
    assert_eq!(parse_key("-1"), None);
    assert_eq!(parse_key(" 28"), None);
    assert_eq!(parse_key(""), None);
    assert_eq!(parse_key("+"), None);
}

#[test]
fn key_codes_in_hex() {
    assert_eq!(parse_key("0x1f"), Some(31));
    assert_eq!(parse_key("0x1F"), Some(31));
    assert_eq!(parse_key("0xffff"), Some(65535));
    assert_eq!(parse_key("0x10000"), None);
    assert_eq!(parse_key("0x+10"), Some(16));
    assert_eq!(parse_key("0X10"), None);
    assert_eq!(parse_key("0x"), None);
    assert_eq!(parse_key("0xg"), None);
}

#[test]
fn named_keys_in_any_case() {
    assert_eq!(parse_key("KEY_ESC"), Some(1));
    assert_eq!(parse_key("key_esc"), Some(1));
    assert_eq!(parse_key("Key_VolumeUp"), Some(115));
    assert_eq!(parse_key("KEY_A"), None);
    assert_eq!(parse_key("KEY_ESC "), None);
    assert_eq!(key_code_from_name("KEY_F5"), Some(63));
    assert_eq!(key_code_from_name("key_f5"), None);
}

#[test]
fn named_keys_have_the_evdev_codes() {
    let table = [
        ("KEY_ESC", Key::KEY_ESC),
        ("KEY_1", Key::KEY_1),
        ("KEY_2", Key::KEY_2),
        ("KEY_3", Key::KEY_3),
        ("KEY_4", Key::KEY_4),
        ("KEY_5", Key::KEY_5),
        ("KEY_6", Key::KEY_6),
        ("KEY_7", Key::KEY_7),
        ("KEY_8", Key::KEY_8),
        ("KEY_9", Key::KEY_9),
        ("KEY_0", Key::KEY_0),
        ("KEY_ENTER", Key::KEY_ENTER),
        ("KEY_SPACE", Key::KEY_SPACE),
        ("KEY_UP", Key::KEY_UP),
        ("KEY_DOWN", Key::KEY_DOWN),
        ("KEY_LEFT", Key::KEY_LEFT),
        ("KEY_RIGHT", Key::KEY_RIGHT),
        ("KEY_HOME", Key::KEY_HOME),
        ("KEY_END", Key::KEY_END),
        ("KEY_PAGEUP", Key::KEY_PAGEUP),
        ("KEY_PAGEDOWN", Key::KEY_PAGEDOWN),
        ("KEY_VOLUMEUP", Key::KEY_VOLUMEUP),
        ("KEY_VOLUMEDOWN", Key::KEY_VOLUMEDOWN),
        ("KEY_POWER", Key::KEY_POWER),
        ("KEY_BACK", Key::KEY_BACK),
        ("KEY_MENU", Key::KEY_MENU),
        ("KEY_F1", Key::KEY_F1),
        ("KEY_F2", Key::KEY_F2),
        ("KEY_F3", Key::KEY_F3),
        ("KEY_F4", Key::KEY_F4),
        ("KEY_F5", Key::KEY_F5),
    ];
    for (name, key) in table {
        assert_eq!(parse_key(name), Some(key.code()), "{}", name);
    }
}

#[test]
fn dpad_directions_in_any_case() {
    assert_eq!(parse_dpad_direction("up"), Some(DpadDirection::Up));
    assert_eq!(parse_dpad_direction("DOWN"), Some(DpadDirection::Down));
    assert_eq!(parse_dpad_direction("Left"), Some(DpadDirection::Left));
    assert_eq!(parse_dpad_direction("rIGHT"), Some(DpadDirection::Right));
    assert_eq!(parse_dpad_direction("upp"), None);
    assert_eq!(parse_dpad_direction(""), None);
    assert_eq!(direction_from_lowercase("up"), Some(DpadDirection::Up));
    assert_eq!(direction_from_lowercase("UP"), None);
}

#[test]
fn triggers_and_their_aliases() {
    assert_eq!(parse_trigger("lt"), Some(Trigger::LT));
    assert_eq!(parse_trigger("Left"), Some(Trigger::LT));
    assert_eq!(parse_trigger("RT"), Some(Trigger::RT));
    assert_eq!(parse_trigger("right"), Some(Trigger::RT));
    assert_eq!(parse_trigger("l"), None);
    assert_eq!(trigger_from_lowercase("left"), Some(Trigger::LT));
    assert_eq!(trigger_from_lowercase("LT"), None);
}

#[test]
fn direction_positions_round_trip() {
    for d in [DpadDirection::Up, DpadDirection::Down, DpadDirection::Left, DpadDirection::Right] {
        assert_eq!(DpadDirection::from_index(d.index()), Some(d));
    }
    assert_eq!(DpadDirection::Up.index(), 0);
    assert_eq!(DpadDirection::Right.index(), 3);
    assert_eq!(DpadDirection::from_index(4), None);
}

#[test]
fn trigger_axes_round_trip() {
    assert_eq!(Trigger::LT.axis_code(), 10);
    assert_eq!(Trigger::RT.axis_code(), 9);
    for t in [Trigger::LT, Trigger::RT] {
        assert_eq!(Trigger::from_axis_code(t.axis_code()), Some(t));
    }
    assert_eq!(Trigger::from_axis_code(16), None);
}

fn entry(k: &str, v: Option<&str>) -> (String, Option<String>) {
    (k.to_string(), v.map(|s| s.to_string()))
}

#[test]
fn later_binding_overrides_earlier() {
    let es = vec![entry("1", Some("/a.sh")), entry("0x1", Some("/b.sh")), entry("2", Some("/c.sh"))];
    let m = collect_key_bindings(&es);
    assert_eq!(m.len(), 2);
    assert_eq!(m.get(&1).map(|s| s.as_str()), Some("/b.sh"));
    assert_eq!(m.get(&2).map(|s| s.as_str()), Some("/c.sh"));
    let es = vec![entry("0x1", Some("/b.sh")), entry("1", Some("/a.sh"))];
    assert_eq!(collect_key_bindings(&es).get(&1).map(|s| s.as_str()), Some("/a.sh"));
}

#[test]
fn entries_without_value_do_not_unbind() {
    let es = vec![entry("KEY_ESC", Some("/esc.sh")), entry("1", None), entry("nothing", Some("/x.sh"))];
    let m = collect_key_bindings(&es);
    assert_eq!(m.len(), 1);
    assert_eq!(m.get(&1).map(|s| s.as_str()), Some("/esc.sh"));
}

#[test]
fn dpad_and_trigger_bindings_by_position_and_axis() {
    let es = vec![entry("UP", Some("/u.sh")), entry("right", Some("/r.sh")), entry("north", Some("/n.sh"))];
    let m = collect_dpad_bindings(&es);
    assert_eq!(m.len(), 2);
    assert_eq!(m.get(&0).map(|s| s.as_str()), Some("/u.sh"));
    assert_eq!(m.get(&3).map(|s| s.as_str()), Some("/r.sh"));
    let es = vec![entry("lt", Some("/1.sh")), entry("left", Some("/2.sh")), entry("rt", None)];
    let m = collect_trigger_bindings(&es);
    assert_eq!(m.len(), 1);
    assert_eq!(m.get(&10).map(|s| s.as_str()), Some("/2.sh"));
}

#[test]
fn unsigned_parsing_by_radix() {
    assert_eq!(parse_u16_radix("123", 10), Some(123));
    assert_eq!(parse_u16_radix("+7", 10), Some(7));
    assert_eq!(parse_u16_radix("ff", 10), None);
    assert_eq!(parse_u16_radix("ff", 16), Some(255));
    assert_eq!(parse_u16_radix("FFFF", 16), Some(65535));
    assert_eq!(parse_u16_radix("00000000000000000000000001", 10), Some(1));
    assert_eq!(parse_u16_radix("99999", 10), None);
    assert_eq!(parse_u16_radix("1_000", 10), None);
    assert_eq!(parse_u16_radix("", 16), None);
    assert_eq!(parse_u16_radix("٣", 10), None);
}

#[test]
fn prefix_and_equality_tests() {
    assert!(starts_with("event12", "event"));
    assert!(starts_with("abc", ""));
    assert!(!starts_with("ev", "event"));
    assert!(!starts_with("Event1", "event"));
    assert!(str_eq("ä", "ä"));
    assert!(!str_eq("a", "ab"));
    assert!(str_eq("", ""));
}

#[test]
fn numeric_spellings_read_back() {
    for n in [0u16, 1, 9, 10, 15, 16, 28, 255, 256, 4095, 4096, 40000, 65535] {
        assert_eq!(parse_key(&n.to_string()), Some(n));
        assert_eq!(parse_key(&format!("0x{:x}", n)), Some(n));
        assert_eq!(parse_key(&format!("0x{:X}", n)), Some(n));
        assert_eq!(parse_key(&format!("0x{:04x}", n)), Some(n));
        assert_eq!(parse_key(&format!("{:03}", n)), Some(n));
    }
}

#[test]
fn ascii_names_ignore_case() {
    for s in ["KEY_ESC", "key_esc", "Key_Esc", "key_PAGEDOWN", "KEY_a", "1f", "+12"] {
        assert_eq!(parse_key(s), parse_key(&s.to_ascii_lowercase()));
        assert_eq!(parse_key(s), parse_key(&s.to_ascii_uppercase()));
    }
    for s in ["up", "UP", "dOwN", "Left", "RIGHT", "north"] {
        assert_eq!(parse_dpad_direction(s), parse_dpad_direction(&s.to_ascii_uppercase()));
        assert_eq!(parse_dpad_direction(s), parse_dpad_direction(&s.to_ascii_lowercase()));
    }
    for s in ["lt", "LEFT", "Rt", "right", "l"] {
        assert_eq!(parse_trigger(s), parse_trigger(&s.to_ascii_uppercase()));
        assert_eq!(parse_trigger(s), parse_trigger(&s.to_ascii_lowercase()));
    }
}
