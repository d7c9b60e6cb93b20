use configparser::ini::Ini;
use kindle_button_mapper::config::Config;

fn load_text(text: &str) -> Result<Config, String> {
    Config::load("config.ini", Ok(text.to_string()))
}

const README_EXAMPLE: &str = "[device]
name = \"Device Name\"
# path = /dev/input/event2
grab = true

[settings]
debounce_ms = 200
long_press_ms = 500
repeat_ms = 100
log_buttons = true
on_connect = /path/to/connect.sh
on_disconnect = /path/to/disconnect.sh

[buttons]
28 = /scripts/enter.sh
0x3b = /scripts/f1.sh
KEY_ESC = /scripts/esc.sh

[longpress]
key_volumeup = /scripts/louder.sh

[dpad]
up = /scripts/up.sh
left = /scripts/left.sh

[dpad_longpress]
down = /scripts/down_long.sh

[triggers]
lt = /scripts/lt.sh
right = /scripts/rt.sh

[triggers_longpress]
left = /scripts/lt_long.sh
";

#[test]
fn readme_example_loads() {
    let c = load_text(README_EXAMPLE).unwrap();
    // configparser keeps the quotes of a value
    assert_eq!(c.device_name.as_deref(), Some("\"Device Name\""));
    assert_eq!(c.device_path, None);
    assert!(c.grab);
    assert_eq!(c.debounce_ms, 200);
    assert_eq!(c.long_press_ms, 500);
    assert_eq!(c.repeat_ms, 100);
    assert!(c.log_buttons);
    assert_eq!(c.on_connect.as_deref(), Some("/path/to/connect.sh"));
    assert_eq!(c.on_disconnect.as_deref(), Some("/path/to/disconnect.sh"));
    assert_eq!(c.mappings.len(), 3);
    assert_eq!(c.mappings.get(&28).map(|s| s.as_str()), Some("/scripts/enter.sh"));
    assert_eq!(c.mappings.get(&59).map(|s| s.as_str()), Some("/scripts/f1.sh"));
    assert_eq!(c.mappings.get(&1).map(|s| s.as_str()), Some("/scripts/esc.sh"));
    assert_eq!(c.long_press_mappings.len(), 1);
    assert_eq!(c.long_press_mappings.get(&115).map(|s| s.as_str()), Some("/scripts/louder.sh"));
    assert_eq!(c.dpad_mappings.len(), 2);
    assert_eq!(c.dpad_mappings.get(&0).map(|s| s.as_str()), Some("/scripts/up.sh"));
    assert_eq!(c.dpad_mappings.get(&2).map(|s| s.as_str()), Some("/scripts/left.sh"));
    assert_eq!(c.dpad_longpress_mappings.get(&1).map(|s| s.as_str()), Some("/scripts/down_long.sh"));
    assert_eq!(c.trigger_mappings.len(), 2);
    assert_eq!(c.trigger_mappings.get(&10).map(|s| s.as_str()), Some("/scripts/lt.sh"));
    assert_eq!(c.trigger_mappings.get(&9).map(|s| s.as_str()), Some("/scripts/rt.sh"));
    assert_eq!(c.trigger_longpress_mappings.get(&10).map(|s| s.as_str()), Some("/scripts/lt_long.sh"));
}

#[test]
fn defaults_are_the_documented_values() {
    let c = Config::default();
    assert_eq!(c.device_name, None);
    assert_eq!(c.device_path, None);
    assert!(!c.grab);
    assert_eq!(c.debounce_ms, 200);
    assert_eq!(c.long_press_ms, 500);
    assert_eq!(c.repeat_ms, 100);
    assert!(!c.log_buttons);
    assert_eq!(c.on_connect, None);
    assert_eq!(c.on_disconnect, None);
    assert!(c.mappings.is_empty());
    assert!(c.long_press_mappings.is_empty());
    assert!(c.dpad_mappings.is_empty());
    assert!(c.dpad_longpress_mappings.is_empty());
    assert!(c.trigger_mappings.is_empty());
    assert!(c.trigger_longpress_mappings.is_empty());
}

#[test]
fn missing_settings_keep_defaults() {
    let c = load_text("[device]\npath = /dev/input/event2\n").unwrap();
    assert_eq!(c.device_path.as_deref(), Some("/dev/input/event2"));
    assert_eq!(c.device_name, None);
    assert!(!c.grab);
    assert_eq!(c.debounce_ms, 200);
    assert_eq!(c.long_press_ms, 500);
    assert_eq!(c.repeat_ms, 100);
    assert!(!c.log_buttons);
    assert_eq!(c.on_connect, None);
    assert_eq!(c.on_disconnect, None);
    assert!(c.mappings.is_empty());
    assert!(c.trigger_longpress_mappings.is_empty());
}

#[test]
fn no_device_is_refused() {
    let r = load_text("[settings]\ndebounce_ms = 10\n");
    assert_eq!(r.unwrap_err(), "Either device.name or device.path must be specified");
    let r = load_text("");
    assert_eq!(r.unwrap_err(), "Either device.name or device.path must be specified");
}

#[test]
fn valueless_device_name_is_no_device() {
    // a key without a delimiter has no value
    let r = load_text("[device]\nname\n");
    assert_eq!(r.unwrap_err(), "Either device.name or device.path must be specified");
}

#[test]
fn unreadable_file_is_refused() {
    let r = Config::load("/etc/kbm.ini", Err("No such file or directory (os error 2)".to_string()));
    assert_eq!(
        r.unwrap_err(),
        "Failed to load config: couldn't read /etc/kbm.ini: No such file or directory (os error 2)"
    );
}

#[test]
fn unparsable_file_is_refused() {
    let r = Config::load("cfg.ini", Ok("[device\nname = x\n".to_string()));
    assert_eq!(
        r.unwrap_err(),
        "Failed to load config: couldn't read cfg.ini: line 1: Found opening bracket for section name but no closing bracket"
    );
    let r = Config::load("cfg.ini", Ok("[device]\n= x\n".to_string()));
    assert_eq!(r.unwrap_err(), "Failed to load config: couldn't read cfg.ini: line 2:0: Key cannot be empty");
}

#[test]
fn unreadable_values_keep_defaults() {
    let c = load_text(
        "[device]\nname = pad\ngrab = yes\n[settings]\ndebounce_ms = abc\nlong_press_ms = -5\nrepeat_ms = 99999999999999999999\nlog_buttons = 1\n",
    )
    .unwrap();
    assert!(!c.grab);
    assert_eq!(c.debounce_ms, 200);
    assert_eq!(c.long_press_ms, 500);
    assert_eq!(c.repeat_ms, 100);
    assert!(!c.log_buttons);
}

#[test]
fn values_are_read_loosely_where_std_allows() {
    let c = load_text(
        "[DEVICE]\nName = pad\nGrab = TRUE\n[Settings]\ndebounce_ms = +50\nlong_press_ms = 0\nrepeat_ms = 18446744073709551615\nlog_buttons = False\n",
    )
    .unwrap();
    assert_eq!(c.device_name.as_deref(), Some("pad"));
    assert!(c.grab);
    assert_eq!(c.debounce_ms, 50);
    assert_eq!(c.long_press_ms, 0);
    assert_eq!(c.repeat_ms, u64::MAX);
    assert!(!c.log_buttons);
}

#[test]
fn empty_scripts_are_none() {
    let c = load_text("[device]\nname = pad\n[settings]\non_connect =\non_disconnect = ; just a comment\n").unwrap();
    assert_eq!(c.on_connect, None);
    assert_eq!(c.on_disconnect, None);
}

#[test]
fn inline_comments_are_dropped_from_scripts() {
    let c = load_text("[device]\nname = pad\n[settings]\non_connect = /bin/hello # greet\n").unwrap();
    assert_eq!(c.on_connect.as_deref(), Some("/bin/hello"));
}

#[test]
fn unknown_or_valueless_bindings_are_skipped() {
    let c = load_text(
        "[device]\nname = pad\n[buttons]\nbogus = /a.sh\nKEY_A = /b.sh\n30\n0X10 = /c.sh\n65536 = /d.sh\n12 = /e.sh\n[dpad]\ndiagonal = /f.sh\nup\n[triggers]\nl = /g.sh\n",
    )
    .unwrap();
    // key names are folded to lower case when the file is parsed, so `0X10`
    // reaches the key reader as `0x10`
    assert_eq!(c.mappings.len(), 2);
    assert_eq!(c.mappings.get(&16).map(|s| s.as_str()), Some("/c.sh"));
    assert_eq!(c.mappings.get(&12).map(|s| s.as_str()), Some("/e.sh"));
    assert!(c.dpad_mappings.is_empty());
    assert!(c.trigger_mappings.is_empty());
}

#[test]
fn two_names_for_one_button_bind_one_of_their_scripts() {
    let c = load_text("[device]\nname = pad\n[buttons]\n1 = /a.sh\n0x1 = /b.sh\n[triggers]\nlt = /c.sh\nleft = /d.sh\n").unwrap();
    assert_eq!(c.mappings.len(), 1);
    let s = c.mappings.get(&1).unwrap().as_str();
    assert!(s == "/a.sh" || s == "/b.sh");
    assert_eq!(c.trigger_mappings.len(), 1);
    let s = c.trigger_mappings.get(&10).unwrap().as_str();
    assert!(s == "/c.sh" || s == "/d.sh");
}

#[test]
fn from_ini_reads_a_store() {
    let mut ini = Ini::new();
    ini.read("[device]\npath = /dev/input/event7\n[settings]\nrepeat_ms = 42\n[dpad]\nRight = /r.sh\n".to_string())
        .unwrap();
    let c = Config::from_ini(&ini).unwrap();
    assert_eq!(c.device_path.as_deref(), Some("/dev/input/event7"));
    assert_eq!(c.repeat_ms, 42);
    assert_eq!(c.dpad_mappings.get(&3).map(|s| s.as_str()), Some("/r.sh"));

    let empty = Ini::new();
    assert_eq!(
        Config::from_ini(&empty).unwrap_err(),
        "Either device.name or device.path must be specified"
    );
}

#[test]
fn unknown_binding_names_are_skipped() {
    let c = load_text("[device]\nname = pad\n[buttons]\nfoo = /a.sh\n116 = /b.sh\n[dpad]\nmiddle = /c.sh\n").unwrap();
    assert_eq!(c.mappings.len(), 1);
    assert_eq!(c.mappings.get(&116).map(|s| s.as_str()), Some("/b.sh"));
    assert!(c.long_press_mappings.is_empty());
    assert!(c.dpad_mappings.is_empty());
}
