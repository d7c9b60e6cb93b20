# kindle_button_mapper

Reads the configuration of a button mapper for a Linux input device
(gamepad, remote, keyboard): which shell scripts the buttons are bound to,
from an INI file (see the sections below). The program finds and opens the
device, runs the connect and disconnect scripts, reconnects, and routes each
input event to a press, hold, release, d-pad or trigger action. It does not
run the bound button scripts: the mapper that would do so (debouncing, long
presses, auto-repeat) is not part of this project, and the program only
logs the routed actions.

The library under `src/` holds the logic, with its contracts and proofs:

- `text`: prefix and equality tests, case mapping (through `std`), and the
  reading of unsigned integers in radix 10 or 16.
- `ini`: the INI store of `configparser`, as the logic sees it (trusted
  items: the declared `Ini` type and the wrappers of the calls made on it).
- `keys`: button names of the configuration: key codes (decimal, `0x` hex or
  one of the named keys), d-pad directions and triggers.
- `bindings`: the button-to-script bindings that a section makes, with the
  laws that tie them to the section's entries.
- `config`: `Config`, its defaults, and reading it from an INI text.
- `input`: how the input device is found (by path or by reported name).
- `events`: what each input event asks of the mapper, what the connection
  loop does after each step (connect and disconnect scripts, reconnecting),
  and what the program makes of its arguments.

`app/main.rs` is the program around it: file and device I/O, inotify,
signals, and the running of the connection loop.

Configuration sections: `[device]` (`name`, `path`, `grab`), `[settings]`
(`debounce_ms`, `long_press_ms`, `repeat_ms`, `log_buttons`, `on_connect`,
`on_disconnect`), `[buttons]`, `[longpress]`, `[dpad]`, `[dpad_longpress]`,
`[triggers]`, `[triggers_longpress]`.
