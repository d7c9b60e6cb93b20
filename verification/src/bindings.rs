//! Bindings of buttons to scripts, built from the entries of a section.
use crate::ini::{entries_view, lists_entries, IniEntry, IniSections};
use crate::keys::{
    direction_for_lowercase, parse_dpad_direction, parse_key, parse_trigger, spec_direction_index,
    spec_parse_ascii_key, spec_parse_key, spec_trigger_axis, trigger_for_lowercase, DpadDirection,
    Trigger,
};
use crate::keys::{parse_key_with, direction_name, is_trigger_name, lemma_direction_spellings, lemma_numeric_key_spellings, lemma_trigger_spellings};
use crate::text::{ascii_uppercase, ascii_lowercase, is_ascii_text, lemma_render_digits_ascii, lowercase_of, render_digits, zeros};
use std::collections::HashMap;
use vstd::prelude::*;

verus! {

broadcast use vstd::std_specs::hash::group_hash_axioms;

/// The bindings that the entries `es` make, taken in order: an entry whose
/// name `key_of` reads and which has a value binds that button to the
/// value, over what an earlier entry bound it to; other entries are
/// skipped.
pub open spec fn fold_bindings<K>(es: Seq<IniEntry>, key_of: spec_fn(Seq<char>) -> Option<K>) -> Map<
    K,
    Seq<char>,
>
    decreases es.len(),
{
    if es.len() == 0 {
        Map::empty()
    } else {
        let earlier = fold_bindings(es.drop_last(), key_of);
        let e = es.last();
        match (key_of(e.0), e.1) {
            (Some(k), Some(v)) => earlier.insert(k, v),
            _ => earlier,
        }
    }
}

/// Whether entry `i` of `es` binds button `k` to some script.
pub open spec fn binds<K>(es: Seq<IniEntry>, key_of: spec_fn(Seq<char>) -> Option<K>, i: int, k: K) -> bool {
    &&& 0 <= i < es.len()
    &&& key_of(es[i].0) == Some(k)
    &&& es[i].1 is Some
}

/// The bindings that a section makes, whatever the order in which its
/// entries are taken: `b` is what some listing of the section's entries
/// binds, and is empty where there is no such section.
pub open spec fn bound_by_section<K>(
    b: Map<K, Seq<char>>,
    m: IniSections,
    section: Seq<char>,
    key_of: spec_fn(Seq<char>) -> Option<K>,
) -> bool {
    if m.contains_key(section) {
        exists|es: Seq<IniEntry>| lists_entries(es, m[section]) && b == fold_bindings(es, key_of)
    } else {
        b == Map::<K, Seq<char>>::empty()
    }
}

/// The string values of a map, by their views.
pub open spec fn string_values<K>(m: Map<K, String>) -> Map<K, Seq<char>> {
    m.map_values(|s: String| s@)
}

/// How a key binding reads its button: the key code of the entry's name,
/// with an ASCII name compared in ASCII upper case.
pub open spec fn key_of_name() -> spec_fn(Seq<char>) -> Option<u16> {
    |s: Seq<char>|
        if is_ascii_text(s) {
            spec_parse_ascii_key(s)
        } else {
            spec_parse_key(s)
        }
}

/// The direction that a d-pad entry's name reads as, with an ASCII name
/// compared in ASCII lower case.
pub open spec fn direction_in_name(s: Seq<char>) -> Option<DpadDirection> {
    if is_ascii_text(s) {
        direction_for_lowercase(ascii_lowercase(s))
    } else {
        direction_for_lowercase(lowercase_of(s))
    }
}

/// The trigger that a trigger entry's name reads as, with an ASCII name
/// compared in ASCII lower case.
pub open spec fn trigger_in_name(s: Seq<char>) -> Option<Trigger> {
    if is_ascii_text(s) {
        trigger_for_lowercase(ascii_lowercase(s))
    } else {
        trigger_for_lowercase(lowercase_of(s))
    }
}

/// How a d-pad binding reads its button: the position of the named direction.
pub open spec fn direction_of_name() -> spec_fn(Seq<char>) -> Option<u8> {
    |s: Seq<char>|
        match direction_in_name(s) {
            Some(d) => Some(spec_direction_index(d)),
            None => None,
        }
}

/// How a trigger binding reads its button: the axis of the named trigger.
pub open spec fn trigger_of_name() -> spec_fn(Seq<char>) -> Option<u16> {
    |s: Seq<char>|
        match trigger_in_name(s) {
            Some(t) => Some(spec_trigger_axis(t)),
            None => None,
        }
}

/// The readers of the bindings are the parsers of the names: a key entry
/// binds the code that `parse_key` reads its name as (for an ASCII name, in
/// ASCII upper case), and a d-pad or trigger entry the position or axis of
/// what `parse_dpad_direction` or `parse_trigger` reads its name as (for an
/// ASCII name, in ASCII lower case). No code or button that the parsers
/// read is left out.
pub proof fn lemma_readers_are_the_parsers(s: Seq<char>)
    ensures
        is_ascii_text(s) ==> key_of_name()(s) == spec_parse_ascii_key(s),
        !is_ascii_text(s) ==> key_of_name()(s) == spec_parse_key(s),
        is_ascii_text(s) ==> direction_of_name()(s) == match direction_for_lowercase(ascii_lowercase(s)) {
            Some(d) => Some(spec_direction_index(d)),
            None => None,
        },
        is_ascii_text(s) ==> trigger_of_name()(s) == match trigger_for_lowercase(ascii_lowercase(s)) {
            Some(t) => Some(spec_trigger_axis(t)),
            None => None,
        },
{
}

/// Every `u16` key code, written in decimal or in hexadecimal after `0x`
/// (either case, any leading zeros), binds that code; an entry with such a
/// name and a script, on its own, binds exactly that code to that script.
pub proof fn lemma_numeric_entries_bind(n: u16, pad: nat, upper: bool, script: Seq<char>)
    ensures
        key_of_name()(render_digits(n as nat, 10, false)) == Some(n),
        key_of_name()("0x"@ + zeros(pad) + render_digits(n as nat, 16, upper)) == Some(n),
        fold_bindings(seq![(render_digits(n as nat, 10, false), Some(script))], key_of_name())
            == Map::<u16, Seq<char>>::empty().insert(n, script),
{
    lemma_render_digits_ascii(n as nat, 10, false, 0);
    lemma_render_digits_ascii(n as nat, 16, upper, pad);
    lemma_numeric_key_spellings(n, pad, upper);
    let dec = render_digits(n as nat, 10, false);
    assert(parse_key_with(dec, ascii_uppercase(dec)) == Some(n));
    reveal_strlit("0x");
    assert("0x"@ =~= seq!['0', 'x']);
    let digits = zeros(pad) + render_digits(n as nat, 16, upper);
    let hex = "0x"@ + zeros(pad) + render_digits(n as nat, 16, upper);
    assert(hex =~= seq!['0', 'x'] + digits);
    assert forall|i: int| 0 <= i < hex.len() implies (#[trigger] hex[i] as u32) < 128 by {
        if i >= 2 {
            assert(hex[i] == digits[i - 2]);
        }
    }
    assert(parse_key_with(hex, ascii_uppercase(hex)) == Some(n));
    let es: Seq<IniEntry> = seq![(dec, Some(script))];
    assert(es.drop_last() =~= Seq::<IniEntry>::empty());
    assert(fold_bindings(es.drop_last(), key_of_name()) == Map::<u16, Seq<char>>::empty());
    assert(es.last() == (dec, Some(script)));
    assert(key_of_name()(dec) == Some(n));
    assert(fold_bindings(es, key_of_name()) =~= Map::<u16, Seq<char>>::empty().insert(n, script));
}

/// Every direction's name binds that direction's position, and each name of
/// a trigger binds that trigger's axis.
pub proof fn lemma_named_buttons_bind(d: DpadDirection, t: Trigger, s: Seq<char>)
    ensures
        direction_of_name()(direction_name(d)) == Some(spec_direction_index(d)),
        is_trigger_name(t, s) ==> trigger_of_name()(s) == Some(spec_trigger_axis(t)),
{
    lemma_direction_spellings(d, direction_name(d));
    lemma_trigger_spellings(t, s);
    reveal_strlit("up");
    reveal_strlit("down");
    reveal_strlit("left");
    reveal_strlit("right");
    reveal_strlit("lt");
    reveal_strlit("rt");
    assert("up"@ =~= seq!['u', 'p']);
    assert("down"@ =~= seq!['d', 'o', 'w', 'n']);
    assert("left"@ =~= seq!['l', 'e', 'f', 't']);
    assert("right"@ =~= seq!['r', 'i', 'g', 'h', 't']);
    assert("lt"@ =~= seq!['l', 't']);
    assert("rt"@ =~= seq!['r', 't']);
    assert(is_ascii_text(direction_name(d)));
    assert(is_trigger_name(t, s) ==> is_ascii_text(s));
}

/// Which buttons end up bound does not depend on the order of the entries:
/// exactly those that some entry with a value names.
pub proof fn lemma_bound_buttons<K>(es: Seq<IniEntry>, key_of: spec_fn(Seq<char>) -> Option<K>, k: K)
    ensures
        fold_bindings(es, key_of).contains_key(k) <==> exists|i: int| binds(es, key_of, i, k),
    decreases es.len(),
{
    if es.len() > 0 {
        let init = es.drop_last();
        lemma_bound_buttons(init, key_of, k);
        let e = es.last();
        if key_of(e.0) == Some(k) && e.1 is Some {
            assert(binds(es, key_of, es.len() - 1, k));
        }
        if exists|i: int| binds(init, key_of, i, k) {
            let i = choose|i: int| binds(init, key_of, i, k);
            assert(binds(es, key_of, i, k));
        }
        if exists|i: int| binds(es, key_of, i, k) {
            let i = choose|i: int| binds(es, key_of, i, k);
            if i < es.len() - 1 {
                assert(binds(init, key_of, i, k));
            }
        }
    }
}

/// A later entry overrides an earlier one: a button is bound to the script
/// of the last entry that binds it.
pub proof fn lemma_last_binding_wins<K>(es: Seq<IniEntry>, key_of: spec_fn(Seq<char>) -> Option<K>, i: int, k: K)
    requires
        binds(es, key_of, i, k),
        forall|j: int| i < j < es.len() ==> !binds(es, key_of, j, k),
    ensures
        fold_bindings(es, key_of).contains_key(k),
        fold_bindings(es, key_of)[k] == es[i].1.unwrap(),
    decreases es.len(),
{
    let init = es.drop_last();
    if i < es.len() - 1 {
        assert forall|j: int| i < j < init.len() implies !binds(init, key_of, j, k) by {
            assert(!binds(es, key_of, j, k));
        }
        lemma_last_binding_wins(init, key_of, i, k);
        assert(!binds(es, key_of, es.len() - 1, k));
    }
}

/// Every bound script is the value of an entry that names the button.
pub proof fn lemma_binding_has_source<K>(es: Seq<IniEntry>, key_of: spec_fn(Seq<char>) -> Option<K>, k: K)
    requires
        fold_bindings(es, key_of).contains_key(k),
    ensures
        exists|i: int| binds(es, key_of, i, k) && es[i].1 == Some(fold_bindings(es, key_of)[k]),
    decreases es.len(),
{
    let init = es.drop_last();
    let e = es.last();
    if key_of(e.0) == Some(k) && e.1 is Some {
        assert(binds(es, key_of, es.len() - 1, k));
    } else {
        lemma_binding_has_source(init, key_of, k);
        let i = choose|i: int| binds(init, key_of, i, k) && init[i].1 == Some(fold_bindings(init, key_of)[k]);
        assert(binds(es, key_of, i, k));
    }
}

/// What a section binds, stated without the order of its entries: the bound
/// buttons are exactly those that some named entry with a value reads as,
/// and each is bound to the value of such an entry. Where only one entry
/// names a button, its script is therefore determined.
pub proof fn lemma_section_bindings<K>(
    b: Map<K, Seq<char>>,
    m: IniSections,
    section: Seq<char>,
    key_of: spec_fn(Seq<char>) -> Option<K>,
    k: K,
)
    requires
        bound_by_section(b, m, section, key_of),
    ensures
        b.contains_key(k) <==> (m.contains_key(section) && exists|name: Seq<char>|
            #![trigger m[section][name]]
            m[section].contains_key(name) && key_of(name) == Some(k) && m[section][name] is Some),
        b.contains_key(k) ==> exists|name: Seq<char>|
            #![trigger m[section][name]]
            m[section].contains_key(name) && key_of(name) == Some(k) && m[section][name] == Some(b[k]),
{
    if m.contains_key(section) {
        let es = choose|es: Seq<IniEntry>| lists_entries(es, m[section]) && b == fold_bindings(es, key_of);
        lemma_bound_buttons(es, key_of, k);
        if b.contains_key(k) {
            lemma_binding_has_source(es, key_of, k);
            let i = choose|i: int| binds(es, key_of, i, k) && es[i].1 == Some(b[k]);
            let name = es[i].0;
            assert(m[section].contains_key(name) && m[section][name] == es[i].1);
        }
        if exists|name: Seq<char>|
            #![trigger m[section][name]]
            m[section].contains_key(name) && key_of(name) == Some(k) && m[section][name] is Some {
            let name = choose|name: Seq<char>|
                #![trigger m[section][name]]
                m[section].contains_key(name) && key_of(name) == Some(k) && m[section][name] is Some;
            let i = choose|i: int| 0 <= i < es.len() && (#[trigger] es[i]).0 == name;
            assert(binds(es, key_of, i, k));
        }
    }
}

/// The key bindings that `entries` make, taken in order (a `[buttons]` or
/// `[longpress]` section).
pub fn collect_key_bindings(entries: &Vec<(String, Option<String>)>) -> (r: HashMap<u16, String>)
    ensures
        string_values(r@) == fold_bindings(entries_view(entries@), key_of_name()),
{
    let ghost es = entries_view(entries@);
    let mut r: HashMap<u16, String> = HashMap::new();
    let mut i: usize = 0;
    while i < entries.len()
        invariant
            i <= entries@.len(),
            es == entries_view(entries@),
            string_values(r@) == fold_bindings(es.take(i as int), key_of_name()),
        decreases entries@.len() - i,
    {
        let entry = &entries[i];
        assert(es.take(i + 1).drop_last() =~= es.take(i as int));
        assert(es.take(i + 1).last() == es[i as int]);
        let parsed = parse_key(entry.0.as_str());
        match (parsed, &entry.1) {
            (Some(code), Some(script)) => {
                r.insert(code, script.clone());
                assert(string_values(r@) =~= fold_bindings(
                    es.take(i + 1),
                    key_of_name(),
                ));
            },
            _ => {},
        }
        i = i + 1;
    }
    assert(es.take(entries@.len() as int) =~= es);
    r
}

/// The d-pad bindings that `entries` make, taken in order, keyed by the
/// direction's position (a `[dpad]` or `[dpad_longpress]` section).
pub fn collect_dpad_bindings(entries: &Vec<(String, Option<String>)>) -> (r: HashMap<u8, String>)
    ensures
        string_values(r@) == fold_bindings(entries_view(entries@), direction_of_name()),
{
    let ghost es = entries_view(entries@);
    let mut r: HashMap<u8, String> = HashMap::new();
    let mut i: usize = 0;
    while i < entries.len()
        invariant
            i <= entries@.len(),
            es == entries_view(entries@),
            string_values(r@) == fold_bindings(es.take(i as int), direction_of_name()),
        decreases entries@.len() - i,
    {
        let entry = &entries[i];
        assert(es.take(i + 1).drop_last() =~= es.take(i as int));
        assert(es.take(i + 1).last() == es[i as int]);
        let parsed = parse_dpad_direction(entry.0.as_str());
        match (parsed, &entry.1) {
            (Some(dir), Some(script)) => {
                r.insert(dir.index(), script.clone());
                assert(string_values(r@) =~= fold_bindings(
                    es.take(i + 1),
                    direction_of_name(),
                ));
            },
            _ => {},
        }
        i = i + 1;
    }
    assert(es.take(entries@.len() as int) =~= es);
    r
}

/// The trigger bindings that `entries` make, taken in order, keyed by the
/// trigger's axis (a `[triggers]` or `[triggers_longpress]` section).
pub fn collect_trigger_bindings(entries: &Vec<(String, Option<String>)>) -> (r: HashMap<u16, String>)
    ensures
        string_values(r@) == fold_bindings(entries_view(entries@), trigger_of_name()),
{
    let ghost es = entries_view(entries@);
    let mut r: HashMap<u16, String> = HashMap::new();
    let mut i: usize = 0;
    while i < entries.len()
        invariant
            i <= entries@.len(),
            es == entries_view(entries@),
            string_values(r@) == fold_bindings(es.take(i as int), trigger_of_name()),
        decreases entries@.len() - i,
    {
        let entry = &entries[i];
        assert(es.take(i + 1).drop_last() =~= es.take(i as int));
        assert(es.take(i + 1).last() == es[i as int]);
        let parsed = parse_trigger(entry.0.as_str());
        match (parsed, &entry.1) {
            (Some(trigger), Some(script)) => {
                r.insert(trigger.axis_code(), script.clone());
                assert(string_values(r@) =~= fold_bindings(
                    es.take(i + 1),
                    trigger_of_name(),
                ));
            },
            _ => {},
        }
        i = i + 1;
    }
    assert(es.take(entries@.len() as int) =~= es);
    r
}

} // verus!
