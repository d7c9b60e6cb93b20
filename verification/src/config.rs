//! The configuration of the mapper, read from an INI text.
use crate::bindings::{
    bound_by_section, collect_dpad_bindings, collect_key_bindings, collect_trigger_bindings,
    direction_of_name, key_of_name, string_values, trigger_of_name,
};
use crate::ini::{
    entries_view, eq_ignore_ascii_case, ini_get, ini_getbool, ini_getuint, ini_has_default_options,
    ini_parse, ini_section_entries, ini_sections, is_folded, lists_entries, lookup_value, new_ini, opt_view, read_ini,
    IniSections,
};
use crate::text::u64_from_str;
use configparser::ini::Ini;
use std::collections::HashMap;
use vstd::prelude::*;
use vstd::string::StringExecFns;

verus! {

broadcast use vstd::std_specs::hash::group_hash_axioms;

/// The mapper's configuration. Keys are bound by key code, d-pad
/// directions by their position (`DpadDirection::index`), triggers by the
/// code of their axis (`Trigger::axis_code`).
#[derive(Debug)]
pub struct Config {
    pub device_name: Option<String>,
    pub device_path: Option<String>,
    pub grab: bool,
    pub debounce_ms: u64,
    pub long_press_ms: u64,
    pub repeat_ms: u64,
    pub log_buttons: bool,
    pub on_connect: Option<String>,
    pub on_disconnect: Option<String>,
    pub mappings: HashMap<u16, String>,
    pub long_press_mappings: HashMap<u16, String>,
    pub dpad_mappings: HashMap<u8, String>,
    pub dpad_longpress_mappings: HashMap<u8, String>,
    pub trigger_mappings: HashMap<u16, String>,
    pub trigger_longpress_mappings: HashMap<u16, String>,
}

/// A boolean setting: `true` or `false` in any ASCII case, else `default`.
pub open spec fn bool_setting(m: IniSections, section: Seq<char>, key: Seq<char>, default: bool) -> bool {
    match lookup_value(m, section, key) {
        Some(v) => if eq_ignore_ascii_case(v, seq!['t', 'r', 'u', 'e']) {
            true
        } else if eq_ignore_ascii_case(v, seq!['f', 'a', 'l', 's', 'e']) {
            false
        } else {
            default
        },
        None => default,
    }
}

/// A number setting: a decimal `u64`, else `default`.
pub open spec fn uint_setting(m: IniSections, section: Seq<char>, key: Seq<char>, default: u64) -> u64 {
    match lookup_value(m, section, key) {
        Some(v) => match u64_from_str(v) {
            Some(n) => n,
            None => default,
        },
        None => default,
    }
}

/// A script setting: a present value that is not empty.
pub open spec fn script_setting(m: IniSections, section: Seq<char>, key: Seq<char>) -> Option<Seq<char>> {
    match lookup_value(m, section, key) {
        Some(v) => if v.len() > 0 {
            Some(v)
        } else {
            None
        },
        None => None,
    }
}

/// Whether the sections name the device to read, by name or by path.
pub open spec fn names_device(m: IniSections) -> bool {
    lookup_value(m, "device"@, "name"@) is Some || lookup_value(m, "device"@, "path"@) is Some
}

/// The settings of `c` are those that the sections `m` give, with the
/// defaults where `m` gives none or none that can be read.
pub open spec fn settings_from(c: Config, m: IniSections) -> bool {
    &&& opt_view(c.device_name) == lookup_value(m, "device"@, "name"@)
    &&& opt_view(c.device_path) == lookup_value(m, "device"@, "path"@)
    &&& c.grab == bool_setting(m, "device"@, "grab"@, false)
    &&& c.debounce_ms == uint_setting(m, "settings"@, "debounce_ms"@, 200)
    &&& c.long_press_ms == uint_setting(m, "settings"@, "long_press_ms"@, 500)
    &&& c.repeat_ms == uint_setting(m, "settings"@, "repeat_ms"@, 100)
    &&& c.log_buttons == bool_setting(m, "settings"@, "log_buttons"@, false)
    &&& opt_view(c.on_connect) == script_setting(m, "settings"@, "on_connect"@)
    &&& opt_view(c.on_disconnect) == script_setting(m, "settings"@, "on_disconnect"@)
}

/// The bindings of `c` are those that the six binding sections of `m` make.
pub open spec fn bindings_from(c: Config, m: IniSections) -> bool {
    &&& bound_by_section(string_values(c.mappings@), m, "buttons"@, key_of_name())
    &&& bound_by_section(
        string_values(c.long_press_mappings@),
        m,
        "longpress"@,
        key_of_name(),
    )
    &&& bound_by_section(string_values(c.dpad_mappings@), m, "dpad"@, direction_of_name())
    &&& bound_by_section(
        string_values(c.dpad_longpress_mappings@),
        m,
        "dpad_longpress"@,
        direction_of_name(),
    )
    &&& bound_by_section(
        string_values(c.trigger_mappings@),
        m,
        "triggers"@,
        trigger_of_name(),
    )
    &&& bound_by_section(
        string_values(c.trigger_longpress_mappings@),
        m,
        "triggers_longpress"@,
        trigger_of_name(),
    )
}

/// Whether `c` is the default configuration.
pub open spec fn is_default(c: Config) -> bool {
    &&& c.device_name is None
    &&& c.device_path is None
    &&& !c.grab
    &&& c.debounce_ms == 200
    &&& c.long_press_ms == 500
    &&& c.repeat_ms == 100
    &&& !c.log_buttons
    &&& c.on_connect is None
    &&& c.on_disconnect is None
    &&& c.mappings@.is_empty()
    &&& c.long_press_mappings@.is_empty()
    &&& c.dpad_mappings@.is_empty()
    &&& c.dpad_longpress_mappings@.is_empty()
    &&& c.trigger_mappings@.is_empty()
    &&& c.trigger_longpress_mappings@.is_empty()
}

/// The message of a configuration that names no device.
pub open spec fn no_device_message() -> Seq<char> {
    "Either device.name or device.path must be specified"@
}

/// The message of a configuration file that could not be read or parsed.
pub open spec fn load_failure_message(path: Seq<char>, why: Seq<char>) -> Seq<char> {
    "Failed to load config: couldn't read "@ + path + ": "@ + why
}

/// A file names its device when its `[device]` section gives a value for
/// `name`, for `path`, or for both; only a file that gives neither does not.
pub proof fn lemma_device_named_by_name_or_path(m: IniSections)
    ensures
        lookup_value(m, "device"@, "name"@) is Some ==> names_device(m),
        lookup_value(m, "device"@, "path"@) is Some ==> names_device(m),
        !names_device(m) ==> lookup_value(m, "device"@, "name"@) is None && lookup_value(
            m,
            "device"@,
            "path"@,
        ) is None,
{
}

/// A setting that the file gives and that can be read is taken as given:
/// a decimal `u64` number, `true` or `false` in any ASCII case, a script
/// that is not empty; a missing one gives the default (no script).
pub proof fn lemma_settings_taken_as_given(m: IniSections, section: Seq<char>, key: Seq<char>, n: u64, v: Seq<char>, default_n: u64, default_b: bool)
    ensures
        lookup_value(m, section, key) == Some(v) && u64_from_str(v) == Some(n) ==> uint_setting(m, section, key, default_n) == n,
        lookup_value(m, section, key) == Some(v) && eq_ignore_ascii_case(v, seq!['t', 'r', 'u', 'e']) ==> bool_setting(m, section, key, default_b),
        lookup_value(m, section, key) == Some(v) && eq_ignore_ascii_case(v, seq!['f', 'a', 'l', 's', 'e']) ==> !bool_setting(m, section, key, default_b),
        lookup_value(m, section, key) == Some(v) && v.len() > 0 ==> script_setting(m, section, key) == Some(v),
        lookup_value(m, section, key) is None ==> uint_setting(m, section, key, default_n) == default_n && bool_setting(m, section, key, default_b) == default_b && script_setting(m, section, key) is None,
{
    if eq_ignore_ascii_case(v, seq!['t', 'r', 'u', 'e']) && eq_ignore_ascii_case(v, seq!['f', 'a', 'l', 's', 'e']) {
        assert(false);
    }
}

/// Settings that a file leaves out keep their defaults: without a
/// `[settings]` section the timings are 200, 500 and 100 ms, buttons are
/// not logged and no script runs on connect or disconnect.
pub proof fn lemma_defaults_without_settings(c: Config, m: IniSections)
    requires
        settings_from(c, m),
        !m.contains_key("settings"@),
    ensures
        c.debounce_ms == 200,
        c.long_press_ms == 500,
        c.repeat_ms == 100,
        !c.log_buttons,
        c.on_connect is None,
        c.on_disconnect is None,
{
}

impl Default for Config {
    fn default() -> (c: Self)
        ensures
            is_default(c),
    {
        Config {
            device_name: None,
            device_path: None,
            grab: false,
            debounce_ms: 200,
            long_press_ms: 500,
            repeat_ms: 100,
            log_buttons: false,
            on_connect: None,
            on_disconnect: None,
            mappings: HashMap::new(),
            long_press_mappings: HashMap::new(),
            dpad_mappings: HashMap::new(),
            dpad_longpress_mappings: HashMap::new(),
            trigger_mappings: HashMap::new(),
            trigger_longpress_mappings: HashMap::new(),
        }
    }
}

/// A boolean setting of `ini`, or `default`.
fn read_bool_setting(ini: &Ini, section: &str, key: &str, default: bool) -> (r: bool)
    requires
        is_folded(section@),
        is_folded(key@),
    ensures
        ini_has_default_options(*ini) ==> r == bool_setting(ini_sections(*ini), section@, key@, default),
{
    match ini_getbool(ini, section, key) {
        Ok(Some(b)) => b,
        _ => default,
    }
}

/// A number setting of `ini`, or `default`.
fn read_uint_setting(ini: &Ini, section: &str, key: &str, default: u64) -> (r: u64)
    requires
        is_folded(section@),
        is_folded(key@),
    ensures
        ini_has_default_options(*ini) ==> r == uint_setting(ini_sections(*ini), section@, key@, default),
{
    match ini_getuint(ini, section, key) {
        Ok(Some(n)) => n,
        _ => default,
    }
}

/// A script setting of `ini`: its value unless that is missing or empty.
fn read_script_setting(ini: &Ini, section: &str, key: &str) -> (r: Option<String>)
    requires
        is_folded(section@),
        is_folded(key@),
    ensures
        ini_has_default_options(*ini) ==> opt_view(r) == script_setting(ini_sections(*ini), section@, key@),
{
    match ini_get(ini, section, key) {
        Some(script) => if !script.as_str().is_empty() {
            Some(script)
        } else {
            None
        },
        None => None,
    }
}

/// The key bindings of `section` in `ini`.
fn read_key_bindings(ini: &Ini, section: &str) -> (r: HashMap<u16, String>)
    ensures
        bound_by_section(string_values(r@), ini_sections(*ini), section@, key_of_name()),
{
    match ini_section_entries(ini, section) {
        Some(entries) => {
            let r = collect_key_bindings(&entries);
            assert(lists_entries(entries_view(entries@), ini_sections(*ini)[section@]));
            r
        },
        None => {
            let r = HashMap::new();
            assert(string_values(r@) =~= Map::empty());
            r
        },
    }
}

/// The d-pad bindings of `section` in `ini`.
fn read_dpad_bindings(ini: &Ini, section: &str) -> (r: HashMap<u8, String>)
    ensures
        bound_by_section(string_values(r@), ini_sections(*ini), section@, direction_of_name()),
{
    match ini_section_entries(ini, section) {
        Some(entries) => {
            let r = collect_dpad_bindings(&entries);
            assert(lists_entries(entries_view(entries@), ini_sections(*ini)[section@]));
            r
        },
        None => {
            let r = HashMap::new();
            assert(string_values(r@) =~= Map::empty());
            r
        },
    }
}

/// The trigger bindings of `section` in `ini`.
fn read_trigger_bindings(ini: &Ini, section: &str) -> (r: HashMap<u16, String>)
    ensures
        bound_by_section(string_values(r@), ini_sections(*ini), section@, trigger_of_name()),
{
    match ini_section_entries(ini, section) {
        Some(entries) => {
            let r = collect_trigger_bindings(&entries);
            assert(lists_entries(entries_view(entries@), ini_sections(*ini)[section@]));
            r
        },
        None => {
            let r = HashMap::new();
            assert(string_values(r@) =~= Map::empty());
            r
        },
    }
}

impl Config {
    /// Reads the configuration from an INI store: the `[device]` and
    /// `[settings]` values over the defaults, and the bindings of the six
    /// binding sections. Fails when the store names no device.
    pub fn from_ini(ini: &Ini) -> (r: Result<Config, String>)
        ensures
            r matches Ok(c) ==> bindings_from(c, ini_sections(*ini)),
            r matches Err(e) ==> e@ == no_device_message(),
            ini_has_default_options(*ini) && (lookup_value(ini_sections(*ini), "device"@, "name"@) is Some
                || lookup_value(ini_sections(*ini), "device"@, "path"@) is Some) ==> r is Ok,
            ini_has_default_options(*ini) && r is Err ==> lookup_value(ini_sections(*ini), "device"@, "name"@)
                is None && lookup_value(ini_sections(*ini), "device"@, "path"@) is None,
            ini_has_default_options(*ini) ==> match r {
                Ok(c) => names_device(ini_sections(*ini)) && settings_from(c, ini_sections(*ini))
                    && bindings_from(c, ini_sections(*ini)),
                Err(e) => !names_device(ini_sections(*ini)) && e@ == no_device_message(),
            },
    {
        proof {
            reveal_strlit("device");
            reveal_strlit("name");
            reveal_strlit("path");
            reveal_strlit("grab");
            reveal_strlit("settings");
            reveal_strlit("debounce_ms");
            reveal_strlit("long_press_ms");
            reveal_strlit("repeat_ms");
            reveal_strlit("log_buttons");
            reveal_strlit("on_connect");
            reveal_strlit("on_disconnect");
        }
        let config = Config {
            // [device] section
            device_name: ini_get(ini, "device", "name"),
            device_path: ini_get(ini, "device", "path"),
            grab: read_bool_setting(ini, "device", "grab", false),
            // [settings] section
            debounce_ms: read_uint_setting(ini, "settings", "debounce_ms", 200),
            long_press_ms: read_uint_setting(ini, "settings", "long_press_ms", 500),
            repeat_ms: read_uint_setting(ini, "settings", "repeat_ms", 100),
            log_buttons: read_bool_setting(ini, "settings", "log_buttons", false),
            on_connect: read_script_setting(ini, "settings", "on_connect"),
            on_disconnect: read_script_setting(ini, "settings", "on_disconnect"),
            // binding sections
            mappings: read_key_bindings(ini, "buttons"),
            long_press_mappings: read_key_bindings(ini, "longpress"),
            dpad_mappings: read_dpad_bindings(ini, "dpad"),
            dpad_longpress_mappings: read_dpad_bindings(ini, "dpad_longpress"),
            trigger_mappings: read_trigger_bindings(ini, "triggers"),
            trigger_longpress_mappings: read_trigger_bindings(ini, "triggers_longpress"),
        };
        if config.device_name.is_none() && config.device_path.is_none() {
            return Err(String::from_str("Either device.name or device.path must be specified"));
        }
        Ok(config)
    }

    /// Reads the configuration from the text of an INI file. `contents` is
    /// what reading the file at `path` gave: its text, or why it could not
    /// be read. A file that cannot be read or parsed, or that names no
    /// device, is refused with a message.
    pub fn load(path: &str, contents: Result<String, String>) -> (r: Result<Config, String>)
        ensures
            match contents {
                Err(why) => r matches Err(e) && e@ == load_failure_message(path@, why@),
                Ok(text) => match ini_parse(text@) {
                    Err(why) => r matches Err(e) && e@ == load_failure_message(path@, why),
                    Ok(m) => (match r {
                        Ok(c) => names_device(m) && settings_from(c, m) && bindings_from(c, m),
                        Err(e) => !names_device(m) && e@ == no_device_message(),
                    }) && ((lookup_value(m, "device"@, "name"@) is Some || lookup_value(m, "device"@, "path"@)
                        is Some) <==> r is Ok),
                },
            },
    {
        let text = match contents {
            Err(why) => {
                return Err(load_failure(path, why.as_str()));
            },
            Ok(text) => text,
        };
        let mut ini = new_ini();
        match read_ini(&mut ini, text) {
            Err(why) => Err(load_failure(path, why.as_str())),
            Ok(()) => Config::from_ini(&ini),
        }
    }
}

/// The message for a configuration file at `path` that could not be read
/// or parsed, for the reason `why`.
fn load_failure(path: &str, why: &str) -> (r: String)
    ensures
        r@ == load_failure_message(path@, why@),
{
    let mut msg = String::from_str("Failed to load config: couldn't read ");
    msg.append(path);
    msg.append(": ");
    msg.append(why);
    msg
}

} // verus!
