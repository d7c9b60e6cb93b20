//! The INI store of `configparser`, as the configuration logic sees it: a
//! map from section names to maps from keys to optional values.
use configparser::ini::Ini;
use crate::text::ascii_lower;
use vstd::prelude::*;

verus! {

#[verifier::external_type_specification]
#[verifier::external_body]
pub struct ExIni(Ini);

/// What an INI store holds: section name to (key to optional value).
pub type IniSections = Map<Seq<char>, Map<Seq<char>, Option<Seq<char>>>>;

/// One `key = value` line of a section (a key without a delimiter has no value).
pub type IniEntry = (Seq<char>, Option<Seq<char>>);

/// The sections that `ini` holds.
pub uninterp spec fn ini_sections(ini: Ini) -> Map<Seq<char>, Map<Seq<char>, Option<Seq<char>>>>;

/// Whether `ini` was made with the options of `Ini::new()`: section and key
/// names folded to lower case, `default` as the default section, no
/// cascading to it, `;` and `#` as comment marks, `=` and `:` as delimiters.
pub uninterp spec fn ini_has_default_options(ini: Ini) -> bool;

/// What `Ini::read` makes of `input` under the options of `Ini::new()`:
/// the sections it holds, or the error message of the first bad line.
pub uninterp spec fn ini_parse(input: Seq<char>) -> Result<
    Map<Seq<char>, Map<Seq<char>, Option<Seq<char>>>>,
    Seq<char>,
>;

/// The view of an optional string.
pub open spec fn opt_view(o: Option<String>) -> Option<Seq<char>> {
    match o {
        Some(s) => Some(s@),
        None => None,
    }
}

/// The view of the entries of a section, in the order given.
pub open spec fn entries_view(es: Seq<(String, Option<String>)>) -> Seq<IniEntry> {
    es.map_values(|e: (String, Option<String>)| (e.0@, opt_view(e.1)))
}

/// Whether `s` holds only ASCII characters none of which is an upper-case
/// letter, so that `configparser` uses it as a name unchanged.
pub open spec fn is_folded(s: Seq<char>) -> bool {
    forall|i: int| 0 <= i < s.len() ==> ((#[trigger] s[i]) as u32) < 128 && !(65 <= (s[i] as u32) <= 90)
}

/// The value of `key` in `section`: `None` where the section, the key or
/// its value is missing.
pub open spec fn lookup_value(m: IniSections, section: Seq<char>, key: Seq<char>) -> Option<Seq<char>> {
    if m.contains_key(section) && m[section].contains_key(key) {
        m[section][key]
    } else {
        None
    }
}

/// `str::eq_ignore_ascii_case` against a lower-case ASCII `target`.
pub open spec fn eq_ignore_ascii_case(s: Seq<char>, target: Seq<char>) -> bool {
    &&& s.len() == target.len()
    &&& forall|i: int| 0 <= i < s.len() ==> ascii_lower(#[trigger] s[i]) == target[i]
}

/// Whether `es` lists the entries of `section`, each key once, in some order.
pub open spec fn lists_entries(es: Seq<IniEntry>, section: Map<Seq<char>, Option<Seq<char>>>) -> bool {
    &&& forall|i: int, j: int| 0 <= i < j < es.len() ==> (#[trigger] es[i]).0 != (#[trigger] es[j]).0
    &&& forall|i: int|
        0 <= i < es.len() ==> section.contains_key((#[trigger] es[i]).0) && section[es[i].0] == es[i].1
    &&& forall|k: Seq<char>|
        #[trigger] section.contains_key(k) ==> exists|i: int| 0 <= i < es.len() && (#[trigger] es[i]).0 == k
}

/// Calls `Ini::new`: an empty store with the default options.
#[verifier::external_body]
pub(crate) fn new_ini() -> (ini: Ini)
    ensures
        ini_sections(ini).dom().is_empty(),
        ini_has_default_options(ini),
{
    Ini::new()
}

/// Calls `Ini::read`: parses `input` and, on success, replaces what the
/// store held by the result; on a bad line the store is left as it was and
/// the message comes back. The map that `read` also returns is dropped.
#[verifier::external_body]
pub(crate) fn read_ini(ini: &mut Ini, input: String) -> (r: Result<(), String>)
    ensures
        ini_has_default_options(*final(ini)) == ini_has_default_options(*old(ini)),
        ini_has_default_options(*old(ini)) ==> match ini_parse(input@) {
            Ok(m) => r is Ok && ini_sections(*final(ini)) == m,
            Err(e) => r matches Err(msg) && msg@ == e && ini_sections(*final(ini)) == ini_sections(
                *old(ini),
            ),
        },
{
    match ini.read(input) {
        Ok(_) => Ok(()),
        Err(e) => Err(e),
    }
}

/// Calls `Ini::get`: the value of `key` in `section`. Stated where both
/// names are already folded (so `get` looks them up unchanged) and the store
/// has the default options (so there is no cascading).
#[verifier::external_body]
pub(crate) fn ini_get(ini: &Ini, section: &str, key: &str) -> (r: Option<String>)
    ensures
        ini_has_default_options(*ini) && is_folded(section@) && is_folded(key@) ==> opt_view(r)
            == lookup_value(ini_sections(*ini), section@, key@),
{
    ini.get(section, key)
}

/// Calls `Ini::getbool`: a present value that equals `true` or `false`
/// ignoring ASCII case gives that boolean, any other present value an
/// error, and a missing one `Ok(None)`. Stated under the same conditions as
/// `ini_get`.
#[verifier::external_body]
pub(crate) fn ini_getbool(ini: &Ini, section: &str, key: &str) -> (r: Result<Option<bool>, String>)
    ensures
        ini_has_default_options(*ini) && is_folded(section@) && is_folded(key@) ==> match lookup_value(
            ini_sections(*ini),
            section@,
            key@,
        ) {
            None => r matches Ok(None),
            Some(v) => if eq_ignore_ascii_case(v, seq!['t', 'r', 'u', 'e']) {
                r matches Ok(Some(b)) && b
            } else if eq_ignore_ascii_case(v, seq!['f', 'a', 'l', 's', 'e']) {
                r matches Ok(Some(b)) && !b
            } else {
                r matches Err(e) && e@ == "provided string was not `true` or `false`"@
            },
        },
{
    ini.getbool(section, key)
}

/// Calls `Ini::getuint`: a present value is read with `u64::from_str` (an
/// optional `+`, then decimal digits, within `u64`); a missing one gives
/// `Ok(None)`. Stated under the same conditions as `ini_get`. The text of
/// the error, which comes from `ParseIntError`, is not stated.
#[verifier::external_body]
pub(crate) fn ini_getuint(ini: &Ini, section: &str, key: &str) -> (r: Result<Option<u64>, String>)
    ensures
        ini_has_default_options(*ini) && is_folded(section@) && is_folded(key@) ==> match lookup_value(
            ini_sections(*ini),
            section@,
            key@,
        ) {
            None => r matches Ok(None),
            Some(v) => match crate::text::u64_from_str(v) {
                Some(n) => r matches Ok(Some(x)) && x == n,
                None => r is Err,
            },
        },
{
    ini.getuint(section, key)
}

/// Looks `section` up in `Ini::get_map_ref()` (by the exact name) and lists
/// its entries. The order is that of a `HashMap` walk and is not stated:
/// only that each entry comes once.
#[verifier::external_body]
pub(crate) fn ini_section_entries(ini: &Ini, section: &str) -> (r: Option<Vec<(String, Option<String>)>>)
    ensures
        match r {
            None => !ini_sections(*ini).contains_key(section@),
            Some(es) => ini_sections(*ini).contains_key(section@) && lists_entries(
                entries_view(es@),
                ini_sections(*ini)[section@],
            ),
        },
{
    match ini.get_map_ref().get(section) {
        None => None,
        Some(entries) => {
            let mut out = Vec::new();
            for (k, v) in entries {
                out.push((k.clone(), v.clone()));
            }
            Some(out)
        },
    }
}

} // verus!
