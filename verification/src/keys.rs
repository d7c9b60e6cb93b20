//! Names of buttons in the configuration: key codes, d-pad directions and
//! triggers.
use crate::text::{
    ascii_lower, ascii_lowercase, ascii_upper, ascii_uppercase, digit_value, is_ascii_text,
    lemma_ascii_case_absorbs, lemma_digits_value_case, lemma_digits_with_non_digit, lemma_leading_zeros,
    lemma_render_digits_value, lowercase_of, parse_u16_radix, render_digits, starts_with, str_eq,
    to_lowercase, to_uppercase, u16_from_str_radix, unsigned_value, uppercase_of, zeros,
};
use vstd::prelude::*;
use vstd::string::StrSliceExecFns;

verus! {

/// D-pad directions
#[derive(Debug, Clone, Copy, PartialEq, Eq, Hash, Structural)]
pub enum DpadDirection {
    Up,
    Down,
    Left,
    Right,
}

/// Trigger buttons
#[derive(Debug, Clone, Copy, PartialEq, Eq, Hash, Structural)]
pub enum Trigger {
    /// Left trigger (the brake axis)
    LT,
    /// Right trigger (the gas axis)
    RT,
}

/// The position of a direction in the order up, down, left, right.
pub open spec fn spec_direction_index(d: DpadDirection) -> u8 {
    match d {
        DpadDirection::Up => 0,
        DpadDirection::Down => 1,
        DpadDirection::Left => 2,
        DpadDirection::Right => 3,
    }
}

/// The code of the absolute axis that reports a trigger: the brake axis
/// (10) for the left one, the gas axis (9) for the right one.
pub open spec fn spec_trigger_axis(t: Trigger) -> u16 {
    match t {
        Trigger::LT => 10,
        Trigger::RT => 9,
    }
}

impl DpadDirection {
    /// The position of this direction in the order up, down, left, right;
    /// d-pad bindings are keyed by it.
    pub fn index(self) -> (r: u8)
        ensures
            r == spec_direction_index(self),
    {
        match self {
            DpadDirection::Up => 0,
            DpadDirection::Down => 1,
            DpadDirection::Left => 2,
            DpadDirection::Right => 3,
        }
    }

    /// The direction at position `i` of the order up, down, left, right.
    pub fn from_index(i: u8) -> (r: Option<DpadDirection>)
        ensures
            match r {
                Some(d) => spec_direction_index(d) == i,
                None => i > 3,
            },
    {
        match i {
            0 => Some(DpadDirection::Up),
            1 => Some(DpadDirection::Down),
            2 => Some(DpadDirection::Left),
            3 => Some(DpadDirection::Right),
            _ => None,
        }
    }
}

impl Trigger {
    /// The code of the absolute axis that reports this trigger; trigger
    /// bindings are keyed by it.
    pub fn axis_code(self) -> (r: u16)
        ensures
            r == spec_trigger_axis(self),
    {
        match self {
            Trigger::LT => 10,
            Trigger::RT => 9,
        }
    }

    /// The trigger that axis `code` reports, if any.
    pub fn from_axis_code(code: u16) -> (r: Option<Trigger>)
        ensures
            match r {
                Some(t) => spec_trigger_axis(t) == code,
                None => code != 9 && code != 10,
            },
    {
        if code == 10 {
            Some(Trigger::LT)
        } else if code == 9 {
            Some(Trigger::RT)
        } else {
            None
        }
    }
}

/// Different directions have different positions, and different triggers
/// different axes: the bindings keyed by them never mix two of them up.
pub proof fn lemma_binding_keys_distinct(d1: DpadDirection, d2: DpadDirection, t1: Trigger, t2: Trigger)
    ensures
        spec_direction_index(d1) == spec_direction_index(d2) <==> d1 == d2,
        spec_trigger_axis(t1) == spec_trigger_axis(t2) <==> t1 == t2,
{
}

/// The code of the key named `name` (written in upper case), among the
/// named keys that the configuration accepts.
pub open spec fn key_code_for_name(name: Seq<char>) -> Option<u16> {
    if name == "KEY_ESC"@ {
        Some(1)
    } else if name == "KEY_1"@ {
        Some(2)
    } else if name == "KEY_2"@ {
        Some(3)
    } else if name == "KEY_3"@ {
        Some(4)
    } else if name == "KEY_4"@ {
        Some(5)
    } else if name == "KEY_5"@ {
        Some(6)
    } else if name == "KEY_6"@ {
        Some(7)
    } else if name == "KEY_7"@ {
        Some(8)
    } else if name == "KEY_8"@ {
        Some(9)
    } else if name == "KEY_9"@ {
        Some(10)
    } else if name == "KEY_0"@ {
        Some(11)
    } else if name == "KEY_ENTER"@ {
        Some(28)
    } else if name == "KEY_SPACE"@ {
        Some(57)
    } else if name == "KEY_UP"@ {
        Some(103)
    } else if name == "KEY_DOWN"@ {
        Some(108)
    } else if name == "KEY_LEFT"@ {
        Some(105)
    } else if name == "KEY_RIGHT"@ {
        Some(106)
    } else if name == "KEY_HOME"@ {
        Some(102)
    } else if name == "KEY_END"@ {
        Some(107)
    } else if name == "KEY_PAGEUP"@ {
        Some(104)
    } else if name == "KEY_PAGEDOWN"@ {
        Some(109)
    } else if name == "KEY_VOLUMEUP"@ {
        Some(115)
    } else if name == "KEY_VOLUMEDOWN"@ {
        Some(114)
    } else if name == "KEY_POWER"@ {
        Some(116)
    } else if name == "KEY_BACK"@ {
        Some(158)
    } else if name == "KEY_MENU"@ {
        Some(139)
    } else if name == "KEY_F1"@ {
        Some(59)
    } else if name == "KEY_F2"@ {
        Some(60)
    } else if name == "KEY_F3"@ {
        Some(61)
    } else if name == "KEY_F4"@ {
        Some(62)
    } else if name == "KEY_F5"@ {
        Some(63)
    } else {
        None
    }
}

/// Every named key is written `KEY_` and then its name: no other text
/// names a key.
pub proof fn lemma_named_keys_prefix(name: Seq<char>)
    requires
        key_code_for_name(name) is Some,
    ensures
        "KEY_"@.is_prefix_of(name),
{
    reveal_strlit("KEY_");
    assert("KEY_"@ =~= seq!['K', 'E', 'Y', '_']);
    reveal_strlit("KEY_ESC");
    assert("KEY_ESC"@ =~= seq!['K', 'E', 'Y', '_', 'E', 'S', 'C']);
    reveal_strlit("KEY_1");
    assert("KEY_1"@ =~= seq!['K', 'E', 'Y', '_', '1']);
    reveal_strlit("KEY_2");
    assert("KEY_2"@ =~= seq!['K', 'E', 'Y', '_', '2']);
    reveal_strlit("KEY_3");
    assert("KEY_3"@ =~= seq!['K', 'E', 'Y', '_', '3']);
    reveal_strlit("KEY_4");
    assert("KEY_4"@ =~= seq!['K', 'E', 'Y', '_', '4']);
    reveal_strlit("KEY_5");
    assert("KEY_5"@ =~= seq!['K', 'E', 'Y', '_', '5']);
    reveal_strlit("KEY_6");
    assert("KEY_6"@ =~= seq!['K', 'E', 'Y', '_', '6']);
    reveal_strlit("KEY_7");
    assert("KEY_7"@ =~= seq!['K', 'E', 'Y', '_', '7']);
    reveal_strlit("KEY_8");
    assert("KEY_8"@ =~= seq!['K', 'E', 'Y', '_', '8']);
    reveal_strlit("KEY_9");
    assert("KEY_9"@ =~= seq!['K', 'E', 'Y', '_', '9']);
    reveal_strlit("KEY_0");
    assert("KEY_0"@ =~= seq!['K', 'E', 'Y', '_', '0']);
    reveal_strlit("KEY_ENTER");
    assert("KEY_ENTER"@ =~= seq!['K', 'E', 'Y', '_', 'E', 'N', 'T', 'E', 'R']);
    reveal_strlit("KEY_SPACE");
    assert("KEY_SPACE"@ =~= seq!['K', 'E', 'Y', '_', 'S', 'P', 'A', 'C', 'E']);
    reveal_strlit("KEY_UP");
    assert("KEY_UP"@ =~= seq!['K', 'E', 'Y', '_', 'U', 'P']);
    reveal_strlit("KEY_DOWN");
    assert("KEY_DOWN"@ =~= seq!['K', 'E', 'Y', '_', 'D', 'O', 'W', 'N']);
    reveal_strlit("KEY_LEFT");
    assert("KEY_LEFT"@ =~= seq!['K', 'E', 'Y', '_', 'L', 'E', 'F', 'T']);
    reveal_strlit("KEY_RIGHT");
    assert("KEY_RIGHT"@ =~= seq!['K', 'E', 'Y', '_', 'R', 'I', 'G', 'H', 'T']);
    reveal_strlit("KEY_HOME");
    assert("KEY_HOME"@ =~= seq!['K', 'E', 'Y', '_', 'H', 'O', 'M', 'E']);
    reveal_strlit("KEY_END");
    assert("KEY_END"@ =~= seq!['K', 'E', 'Y', '_', 'E', 'N', 'D']);
    reveal_strlit("KEY_PAGEUP");
    assert("KEY_PAGEUP"@ =~= seq!['K', 'E', 'Y', '_', 'P', 'A', 'G', 'E', 'U', 'P']);
    reveal_strlit("KEY_PAGEDOWN");
    assert("KEY_PAGEDOWN"@ =~= seq!['K', 'E', 'Y', '_', 'P', 'A', 'G', 'E', 'D', 'O', 'W', 'N']);
    reveal_strlit("KEY_VOLUMEUP");
    assert("KEY_VOLUMEUP"@ =~= seq!['K', 'E', 'Y', '_', 'V', 'O', 'L', 'U', 'M', 'E', 'U', 'P']);
    reveal_strlit("KEY_VOLUMEDOWN");
    assert("KEY_VOLUMEDOWN"@ =~= seq!['K', 'E', 'Y', '_', 'V', 'O', 'L', 'U', 'M', 'E', 'D', 'O', 'W', 'N']);
    reveal_strlit("KEY_POWER");
    assert("KEY_POWER"@ =~= seq!['K', 'E', 'Y', '_', 'P', 'O', 'W', 'E', 'R']);
    reveal_strlit("KEY_BACK");
    assert("KEY_BACK"@ =~= seq!['K', 'E', 'Y', '_', 'B', 'A', 'C', 'K']);
    reveal_strlit("KEY_MENU");
    assert("KEY_MENU"@ =~= seq!['K', 'E', 'Y', '_', 'M', 'E', 'N', 'U']);
    reveal_strlit("KEY_F1");
    assert("KEY_F1"@ =~= seq!['K', 'E', 'Y', '_', 'F', '1']);
    reveal_strlit("KEY_F2");
    assert("KEY_F2"@ =~= seq!['K', 'E', 'Y', '_', 'F', '2']);
    reveal_strlit("KEY_F3");
    assert("KEY_F3"@ =~= seq!['K', 'E', 'Y', '_', 'F', '3']);
    reveal_strlit("KEY_F4");
    assert("KEY_F4"@ =~= seq!['K', 'E', 'Y', '_', 'F', '4']);
    reveal_strlit("KEY_F5");
    assert("KEY_F5"@ =~= seq!['K', 'E', 'Y', '_', 'F', '5']);
}

/// The key code that a button name `s` of the configuration stands for,
/// given `upper`, the upper-case form of `s`: a decimal code, else a
/// hexadecimal code after `0x`, else one of the named keys, whose names are
/// compared in upper case.
pub open spec fn parse_key_with(s: Seq<char>, upper: Seq<char>) -> Option<u16> {
    match u16_from_str_radix(s, 10) {
        Some(c) => Some(c),
        None => {
            let hex = if "0x"@.is_prefix_of(s) {
                u16_from_str_radix(s.skip(2), 16)
            } else {
                None
            };
            match hex {
                Some(c) => Some(c),
                None => key_code_for_name(upper),
            }
        },
    }
}

/// The key code that the button name `s` stands for.
pub open spec fn spec_parse_key(s: Seq<char>) -> Option<u16> {
    parse_key_with(s, uppercase_of(s))
}

/// The key code that the ASCII button name `s` stands for.
pub open spec fn spec_parse_ascii_key(s: Seq<char>) -> Option<u16> {
    parse_key_with(s, ascii_uppercase(s))
}

/// The d-pad direction named by `s` once in lower case.
pub open spec fn direction_for_lowercase(s: Seq<char>) -> Option<DpadDirection> {
    if s == "up"@ {
        Some(DpadDirection::Up)
    } else if s == "down"@ {
        Some(DpadDirection::Down)
    } else if s == "left"@ {
        Some(DpadDirection::Left)
    } else if s == "right"@ {
        Some(DpadDirection::Right)
    } else {
        None
    }
}

/// The trigger named by `s` once in lower case.
pub open spec fn trigger_for_lowercase(s: Seq<char>) -> Option<Trigger> {
    if s == "lt"@ || s == "left"@ {
        Some(Trigger::LT)
    } else if s == "rt"@ || s == "right"@ {
        Some(Trigger::RT)
    } else {
        None
    }
}

/// Reading an unsigned number does not depend on the ASCII case of `s`.
proof fn lemma_unsigned_value_case(s: Seq<char>, radix: nat)
    ensures
        unsigned_value(ascii_lowercase(s), radix) == unsigned_value(s, radix),
        unsigned_value(ascii_uppercase(s), radix) == unsigned_value(s, radix),
{
    let lo = ascii_lowercase(s);
    let up = ascii_uppercase(s);
    if s.len() > 0 {
        assert(lo[0] == ascii_lower(s[0]));
        assert(up[0] == ascii_upper(s[0]));
        assert(lo.drop_first() =~= ascii_lowercase(s.drop_first()));
        assert(up.drop_first() =~= ascii_uppercase(s.drop_first()));
        lemma_digits_value_case(s.drop_first(), radix);
    }
    lemma_digits_value_case(s, radix);
}

/// Whether `s` begins with `0x` once in lower case.
pub open spec fn has_hex_prefix(s: Seq<char>) -> bool {
    "0x"@.is_prefix_of(ascii_lowercase(s))
}

/// Every `u16` reads back through its decimal spelling and through its
/// hexadecimal spelling after `0x`, in either case and with any number of
/// leading zeros.
pub proof fn lemma_numeric_key_spellings(n: u16, pad: nat, upper: bool)
    ensures
        spec_parse_key(render_digits(n as nat, 10, false)) == Some(n),
        spec_parse_key("0x"@ + zeros(pad) + render_digits(n as nat, 16, upper)) == Some(n),
        forall|u: Seq<char>| #[trigger] parse_key_with(render_digits(n as nat, 10, false), u) == Some(n),
        forall|u: Seq<char>|
            #[trigger] parse_key_with("0x"@ + zeros(pad) + render_digits(n as nat, 16, upper), u) == Some(n),
{
    lemma_render_digits_value(n as nat, 10, false);
    let dec = render_digits(n as nat, 10, false);
    assert(unsigned_value(dec, 10) == Some(n as nat));
    reveal_strlit("0x");
    assert("0x"@ =~= seq!['0', 'x']);
    let digits = zeros(pad) + render_digits(n as nat, 16, upper);
    let s = "0x"@ + zeros(pad) + render_digits(n as nat, 16, upper);
    assert(s[1] == 'x');
    assert(digit_value('x', 10) is None);
    lemma_digits_with_non_digit(s, 10, 1);
    assert(s[0] == '0');
    assert(u16_from_str_radix(s, 10) is None);
    assert("0x"@.is_prefix_of(s));
    assert(s.skip(2) =~= digits);
    lemma_render_digits_value(n as nat, 16, upper);
    lemma_leading_zeros(pad, render_digits(n as nat, 16, upper), 16);
    if pad > 0 {
        assert(digits[0] == '0');
    } else {
        assert(digits =~= render_digits(n as nat, 16, upper));
    }
    assert(digits.len() > 0);
    assert(digits[0] != '+');
    assert(unsigned_value(digits, 16) == Some(n as nat));
    assert(u16_from_str_radix(digits, 16) == Some(n));
}

/// An ASCII button name reads the same in lower case and in upper case,
/// unless it is a `0x` hexadecimal code, which needs the lower-case `x`.
pub proof fn lemma_ascii_key_case(s: Seq<char>)
    requires
        is_ascii_text(s),
        !has_hex_prefix(s),
    ensures
        spec_parse_ascii_key(ascii_lowercase(s)) == spec_parse_ascii_key(s),
        spec_parse_ascii_key(ascii_uppercase(s)) == spec_parse_ascii_key(s),
        is_ascii_text(ascii_lowercase(s)),
        is_ascii_text(ascii_uppercase(s)),
{
    reveal_strlit("0x");
    assert("0x"@ =~= seq!['0', 'x']);
    let lo = ascii_lowercase(s);
    let up = ascii_uppercase(s);
    lemma_ascii_case_absorbs(s);
    lemma_unsigned_value_case(s, 10);
    if "0x"@.is_prefix_of(s) {
        assert(lo[0] == ascii_lower(s[0]) && lo[1] == ascii_lower(s[1]));
        assert("0x"@.is_prefix_of(lo));
    }
    if "0x"@.is_prefix_of(up) {
        assert(up[1] == ascii_upper(s[1]));
        assert(false);
    }
}

/// An ASCII button name that begins with a letter is one of the named keys
/// or nothing, compared in upper case.
pub proof fn lemma_ascii_key_names(s: Seq<char>)
    requires
        is_ascii_text(s),
        s.len() > 0,
        ascii_upper(s[0]) != s[0] || ascii_lower(s[0]) != s[0],
    ensures
        spec_parse_ascii_key(s) == key_code_for_name(ascii_uppercase(s)),
{
    reveal_strlit("0x");
    assert("0x"@ =~= seq!['0', 'x']);
    assert(digit_value(s[0], 10) is None);
    lemma_digits_with_non_digit(s, 10, 0);
    if s[0] == '+' {
        assert(false);
    }
    assert(!"0x"@.is_prefix_of(s));
}

/// How a direction is written in the configuration.
pub open spec fn direction_name(d: DpadDirection) -> Seq<char> {
    match d {
        DpadDirection::Up => "up"@,
        DpadDirection::Down => "down"@,
        DpadDirection::Left => "left"@,
        DpadDirection::Right => "right"@,
    }
}

/// Each direction reads back through its name, only its name reads as it,
/// and an ASCII spelling reads the same in any case.
pub proof fn lemma_direction_spellings(d: DpadDirection, s: Seq<char>)
    ensures
        direction_for_lowercase(ascii_lowercase(direction_name(d))) == Some(d),
        direction_for_lowercase(s) == Some(d) ==> s == direction_name(d),
        is_ascii_text(s) ==> is_ascii_text(ascii_uppercase(s)) && direction_for_lowercase(
            ascii_lowercase(ascii_uppercase(s)),
        ) == direction_for_lowercase(ascii_lowercase(s)),
        is_ascii_text(s) ==> is_ascii_text(ascii_lowercase(s)) && direction_for_lowercase(
            ascii_lowercase(ascii_lowercase(s)),
        ) == direction_for_lowercase(ascii_lowercase(s)),
{
    reveal_strlit("up");
    reveal_strlit("down");
    reveal_strlit("left");
    reveal_strlit("right");
    lemma_ascii_case_absorbs(s);
    assert("up"@ =~= seq!['u', 'p']);
    assert("down"@ =~= seq!['d', 'o', 'w', 'n']);
    assert("left"@ =~= seq!['l', 'e', 'f', 't']);
    assert("right"@ =~= seq!['r', 'i', 'g', 'h', 't']);
    assert(ascii_lowercase("up"@) =~= "up"@);
    assert(ascii_lowercase("down"@) =~= "down"@);
    assert(ascii_lowercase("left"@) =~= "left"@);
    assert(ascii_lowercase("right"@) =~= "right"@);
}

/// The names of a trigger: `lt` or `left` for the left one, `rt` or
/// `right` for the right one.
pub open spec fn is_trigger_name(t: Trigger, s: Seq<char>) -> bool {
    match t {
        Trigger::LT => s == "lt"@ || s == "left"@,
        Trigger::RT => s == "rt"@ || s == "right"@,
    }
}

/// Each trigger reads back through each of its names, only those read as
/// it, and an ASCII spelling reads the same in any case.
pub proof fn lemma_trigger_spellings(t: Trigger, s: Seq<char>)
    ensures
        is_trigger_name(t, s) ==> trigger_for_lowercase(ascii_lowercase(s)) == Some(t),
        trigger_for_lowercase(s) == Some(t) ==> is_trigger_name(t, s),
        is_ascii_text(s) ==> is_ascii_text(ascii_uppercase(s)) && trigger_for_lowercase(
            ascii_lowercase(ascii_uppercase(s)),
        ) == trigger_for_lowercase(ascii_lowercase(s)),
        is_ascii_text(s) ==> is_ascii_text(ascii_lowercase(s)) && trigger_for_lowercase(
            ascii_lowercase(ascii_lowercase(s)),
        ) == trigger_for_lowercase(ascii_lowercase(s)),
{
    reveal_strlit("lt");
    reveal_strlit("left");
    reveal_strlit("rt");
    reveal_strlit("right");
    lemma_ascii_case_absorbs(s);
    assert("lt"@ =~= seq!['l', 't']);
    assert("left"@ =~= seq!['l', 'e', 'f', 't']);
    assert("rt"@ =~= seq!['r', 't']);
    assert("right"@ =~= seq!['r', 'i', 'g', 'h', 't']);
    assert(ascii_lowercase("lt"@) =~= "lt"@);
    assert(ascii_lowercase("left"@) =~= "left"@);
    assert(ascii_lowercase("rt"@) =~= "rt"@);
    assert(ascii_lowercase("right"@) =~= "right"@);
}

/// The code of the named key `name`, given in upper case.
pub fn key_code_from_name(name: &str) -> (r: Option<u16>)
    ensures
        r == key_code_for_name(name@),
{
    if str_eq(name, "KEY_ESC") {
        Some(1)
    } else if str_eq(name, "KEY_1") {
        Some(2)
    } else if str_eq(name, "KEY_2") {
        Some(3)
    } else if str_eq(name, "KEY_3") {
        Some(4)
    } else if str_eq(name, "KEY_4") {
        Some(5)
    } else if str_eq(name, "KEY_5") {
        Some(6)
    } else if str_eq(name, "KEY_6") {
        Some(7)
    } else if str_eq(name, "KEY_7") {
        Some(8)
    } else if str_eq(name, "KEY_8") {
        Some(9)
    } else if str_eq(name, "KEY_9") {
        Some(10)
    } else if str_eq(name, "KEY_0") {
        Some(11)
    } else if str_eq(name, "KEY_ENTER") {
        Some(28)
    } else if str_eq(name, "KEY_SPACE") {
        Some(57)
    } else if str_eq(name, "KEY_UP") {
        Some(103)
    } else if str_eq(name, "KEY_DOWN") {
        Some(108)
    } else if str_eq(name, "KEY_LEFT") {
        Some(105)
    } else if str_eq(name, "KEY_RIGHT") {
        Some(106)
    } else if str_eq(name, "KEY_HOME") {
        Some(102)
    } else if str_eq(name, "KEY_END") {
        Some(107)
    } else if str_eq(name, "KEY_PAGEUP") {
        Some(104)
    } else if str_eq(name, "KEY_PAGEDOWN") {
        Some(109)
    } else if str_eq(name, "KEY_VOLUMEUP") {
        Some(115)
    } else if str_eq(name, "KEY_VOLUMEDOWN") {
        Some(114)
    } else if str_eq(name, "KEY_POWER") {
        Some(116)
    } else if str_eq(name, "KEY_BACK") {
        Some(158)
    } else if str_eq(name, "KEY_MENU") {
        Some(139)
    } else if str_eq(name, "KEY_F1") {
        Some(59)
    } else if str_eq(name, "KEY_F2") {
        Some(60)
    } else if str_eq(name, "KEY_F3") {
        Some(61)
    } else if str_eq(name, "KEY_F4") {
        Some(62)
    } else if str_eq(name, "KEY_F5") {
        Some(63)
    } else {
        None
    }
}

/// The key code that the button name `s` of the configuration stands for.
pub fn parse_key(s: &str) -> (r: Option<u16>)
    ensures
        r == spec_parse_key(s@),
        is_ascii_text(s@) ==> r == spec_parse_ascii_key(s@),
{
    if let Some(code) = parse_u16_radix(s, 10) {
        return Some(code);
    }
    if starts_with(s, "0x") {
        proof {
            reveal_strlit("0x");
        }
        let hex = s.substring_char(2, s.unicode_len());
        assert(hex@ =~= s@.skip(2));
        if let Some(code) = parse_u16_radix(hex, 16) {
            return Some(code);
        }
    }
    let upper = to_uppercase(s);
    key_code_from_name(upper.as_str())
}

/// The d-pad direction named by `lower`, given in lower case.
pub fn direction_from_lowercase(lower: &str) -> (r: Option<DpadDirection>)
    ensures
        r == direction_for_lowercase(lower@),
{
    if str_eq(lower, "up") {
        Some(DpadDirection::Up)
    } else if str_eq(lower, "down") {
        Some(DpadDirection::Down)
    } else if str_eq(lower, "left") {
        Some(DpadDirection::Left)
    } else if str_eq(lower, "right") {
        Some(DpadDirection::Right)
    } else {
        None
    }
}

/// The trigger named by `lower`, given in lower case: `lt` or `left` for
/// the left one, `rt` or `right` for the right one.
pub fn trigger_from_lowercase(lower: &str) -> (r: Option<Trigger>)
    ensures
        r == trigger_for_lowercase(lower@),
{
    if str_eq(lower, "lt") || str_eq(lower, "left") {
        Some(Trigger::LT)
    } else if str_eq(lower, "rt") || str_eq(lower, "right") {
        Some(Trigger::RT)
    } else {
        None
    }
}

/// The d-pad direction that `s` names, in any case.
pub fn parse_dpad_direction(s: &str) -> (r: Option<DpadDirection>)
    ensures
        r == direction_for_lowercase(lowercase_of(s@)),
        is_ascii_text(s@) ==> r == direction_for_lowercase(ascii_lowercase(s@)),
{
    let lower = to_lowercase(s);
    direction_from_lowercase(lower.as_str())
}

/// The trigger that `s` names, in any case.
pub fn parse_trigger(s: &str) -> (r: Option<Trigger>)
    ensures
        r == trigger_for_lowercase(lowercase_of(s@)),
        is_ascii_text(s@) ==> r == trigger_for_lowercase(ascii_lowercase(s@)),
{
    let lower = to_lowercase(s);
    trigger_from_lowercase(lower.as_str())
}

} // verus!
