//! What the event loop does with each input event, what the connection loop
//! does after each of its steps, and what the program makes of its
//! arguments.
use crate::ini::opt_view;
use vstd::prelude::*;
use vstd::string::StringExecFns;

verus! {

/// The kinds of input events that the event loop tells apart.
#[derive(Debug, Clone, Copy, PartialEq, Eq, Structural)]
pub enum EventKind {
    /// A key or button (`EV_KEY`).
    Key,
    /// An absolute axis (`EV_ABS`).
    AbsAxis,
    /// Any other kind.
    Other,
}

/// What an input event asks of the button mapper.
#[derive(Debug, Clone, Copy, PartialEq, Eq, Structural)]
pub enum InputAction {
    /// The key with this code went down.
    Press(u16),
    /// The key with this code is held (auto-repeat from the device).
    Held(u16),
    /// The key with this code went up.
    Release(u16),
    /// The d-pad hat axis with this code moved to this value.
    Dpad(u16, i32),
    /// The trigger axis with this code moved to this value.
    Trigger(u16, i32),
    /// Nothing.
    Ignore,
}

/// The hat axes of the d-pad (`ABS_HAT0X`, `ABS_HAT0Y`).
pub open spec fn is_dpad_axis(code: u16) -> bool {
    code == 16 || code == 17
}

/// The trigger axes (`ABS_GAS` for the right trigger, `ABS_BRAKE` for the left).
pub open spec fn is_trigger_axis(code: u16) -> bool {
    code == 9 || code == 10
}

/// What an event of `kind` with `code` and `value` asks for: a key event
/// by its value (1 down, 2 held, 0 up), an absolute-axis event by its axis.
pub open spec fn spec_route_event(kind: EventKind, code: u16, value: i32) -> InputAction {
    match kind {
        EventKind::Key => if value == 1 {
            InputAction::Press(code)
        } else if value == 2 {
            InputAction::Held(code)
        } else if value == 0 {
            InputAction::Release(code)
        } else {
            InputAction::Ignore
        },
        EventKind::AbsAxis => if is_dpad_axis(code) {
            InputAction::Dpad(code, value)
        } else if is_trigger_axis(code) {
            InputAction::Trigger(code, value)
        } else {
            InputAction::Ignore
        },
        EventKind::Other => InputAction::Ignore,
    }
}

/// What the event loop does with an event of `kind` with `code` and `value`.
pub fn route_event(kind: EventKind, code: u16, value: i32) -> (r: InputAction)
    ensures
        r == spec_route_event(kind, code, value),
        kind == EventKind::AbsAxis && (code == 16 || code == 17) ==> r == InputAction::Dpad(code, value),
        kind == EventKind::AbsAxis && (code == 9 || code == 10) ==> r == InputAction::Trigger(code, value),
{
    match kind {
        EventKind::Key => match value {
            1 => InputAction::Press(code),
            2 => InputAction::Held(code),
            0 => InputAction::Release(code),
            _ => InputAction::Ignore,
        },
        EventKind::AbsAxis => match code {
            16 | 17 => InputAction::Dpad(code, value),
            9 | 10 => InputAction::Trigger(code, value),
            _ => InputAction::Ignore,
        },
        EventKind::Other => InputAction::Ignore,
    }
}

/// What happened in the connection loop: the device was opened, or could
/// not be; reading its events failed (the device went away), or stopped
/// because the program is shutting down.
#[derive(Debug, Clone, Copy, PartialEq, Eq, Structural)]
pub enum LinkEvent {
    Opened,
    OpenFailed,
    EventsFailed,
    EventsStopped,
}

/// What the connection loop does next: run a script (and wait for it),
/// then read the device's events, or else wait this long and open the
/// device again (no wait given: stop).
#[derive(Debug)]
pub struct LinkStep {
    pub run_script: Option<String>,
    pub read_events: bool,
    pub reconnect_after_ms: Option<u64>,
}

/// An optional script, copied.
fn copy_script(script: &Option<String>) -> (r: Option<String>)
    ensures
        opt_view(r) == opt_view(*script),
{
    match script {
        Some(s) => Some(s.clone()),
        None => None,
    }
}

/// The next step of the connection loop after `event`, given the scripts to
/// run on connect and on disconnect and whether the program is still
/// running: once the device is open, run the connect script and read
/// events; when reading fails, run the disconnect script; after a failed
/// open or a failure or stop of reading, open again after a second while
/// running, and stop otherwise.
pub fn next_link_step(
    on_connect: &Option<String>,
    on_disconnect: &Option<String>,
    running: bool,
    event: LinkEvent,
) -> (r: LinkStep)
    ensures
        event == LinkEvent::Opened ==> opt_view(r.run_script) == opt_view(*on_connect) && r.read_events
            && r.reconnect_after_ms is None,
        event == LinkEvent::EventsFailed ==> opt_view(r.run_script) == opt_view(*on_disconnect)
            && !r.read_events,
        (event == LinkEvent::OpenFailed || event == LinkEvent::EventsStopped) ==> r.run_script is None
            && !r.read_events,
        event != LinkEvent::Opened ==> r.reconnect_after_ms == (if running {
            Some(1000u64)
        } else {
            None
        }),
{
    let reconnect = if running {
        Some(1000u64)
    } else {
        None
    };
    match event {
        LinkEvent::Opened => LinkStep {
            run_script: copy_script(on_connect),
            read_events: true,
            reconnect_after_ms: None,
        },
        LinkEvent::EventsFailed => LinkStep {
            run_script: copy_script(on_disconnect),
            read_events: false,
            reconnect_after_ms: reconnect,
        },
        LinkEvent::OpenFailed | LinkEvent::EventsStopped => LinkStep {
            run_script: None,
            read_events: false,
            reconnect_after_ms: reconnect,
        },
    }
}

/// Each event is routed by what it is, with its own code and value: a key
/// event with value 1, 2 or 0 is a press, a hold or a release of that key;
/// every event of the d-pad hat axes 16 and 17 is a d-pad action with the
/// event's value, whatever the value (0, the centred position, included);
/// every event of the trigger axes 9 and 10 is a trigger action with its
/// value; and an event is ignored exactly when it is of another kind, of
/// another axis, or a key event with another value.
pub proof fn lemma_event_routing(kind: EventKind, code: u16, value: i32)
    ensures
        kind == EventKind::Key && value == 1 ==> spec_route_event(kind, code, value) == InputAction::Press(code),
        kind == EventKind::Key && value == 2 ==> spec_route_event(kind, code, value) == InputAction::Held(code),
        kind == EventKind::Key && value == 0 ==> spec_route_event(kind, code, value) == InputAction::Release(code),
        kind == EventKind::AbsAxis && (code == 16 || code == 17) ==> spec_route_event(kind, code, value)
            == InputAction::Dpad(code, value),
        kind == EventKind::AbsAxis && (code == 9 || code == 10) ==> spec_route_event(kind, code, value)
            == InputAction::Trigger(code, value),
        spec_route_event(kind, code, value) == InputAction::Ignore <==> (kind == EventKind::Other || (kind
            == EventKind::Key && value != 0 && value != 1 && value != 2) || (kind == EventKind::AbsAxis
            && code != 9 && code != 10 && code != 16 && code != 17)),
{
}

/// The configuration file that the arguments name: the first argument after
/// the program's name, else `config.ini`.
pub open spec fn spec_config_path(args: Seq<Seq<char>>) -> Seq<char> {
    if args.len() > 1 {
        args[1]
    } else {
        "config.ini"@
    }
}

/// The views of a list of strings.
pub open spec fn strings_view(args: Seq<String>) -> Seq<Seq<char>> {
    args.map_values(|a: String| a@)
}

/// The configuration file that the program's arguments (its name first)
/// name.
pub fn config_path_from_args(args: &Vec<String>) -> (r: String)
    ensures
        r@ == spec_config_path(strings_view(args@)),
        args@.len() >= 2 ==> r@ == args@[1]@,
{
    if args.len() > 1 {
        args[1].clone()
    } else {
        String::from_str("config.ini")
    }
}

/// The configuration file is the first argument after the program's name
/// whenever there is one, and `config.ini` only when there is none.
pub proof fn lemma_config_path_choice(args: Seq<String>)
    ensures
        args.len() >= 2 ==> spec_config_path(strings_view(args)) == args[1]@,
        args.len() < 2 ==> spec_config_path(strings_view(args)) == "config.ini"@,
{
}

/// Whether an argument asks for the version: `--version` or `-V`.
pub open spec fn is_version_flag(a: Seq<char>) -> bool {
    a == "--version"@ || a == "-V"@
}

/// The version is asked for by `--version` and by `-V`, and by nothing else.
pub proof fn lemma_version_flags(a: Seq<char>)
    ensures
        is_version_flag("--version"@),
        is_version_flag("-V"@),
        is_version_flag(a) ==> a == "--version"@ || a == "-V"@,
{
}

/// Whether any of the program's arguments asks for the version.
pub fn asks_for_version(args: &Vec<String>) -> (r: bool)
    ensures
        r == exists|i: int| 0 <= i < args@.len() && is_version_flag(#[trigger] args@[i]@),
{
    let mut i: usize = 0;
    while i < args.len()
        invariant
            i <= args@.len(),
            forall|j: int| 0 <= j < i ==> !is_version_flag(#[trigger] args@[j]@),
        decreases args@.len() - i,
    {
        let a = args[i].as_str();
        if crate::text::str_eq(a, "--version") || crate::text::str_eq(a, "-V") {
            return true;
        }
        i = i + 1;
    }
    false
}

} // verus!
