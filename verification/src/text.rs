//! Character-level text helpers: prefix and equality tests, case mapping,
//! and the reading of unsigned integers in a given radix.
use vstd::prelude::*;
use vstd::string::StrSliceExecFns;

verus! {

/// The value of digit `c` in `radix` (ASCII digits, then ASCII letters in
/// either case for the values from 10 up), or `None` where `c` is no digit
/// of that radix.
pub open spec fn digit_value(c: char, radix: nat) -> Option<nat> {
    let u = c as u32;
    let d: int = if 48 <= u <= 57 {
        u - 48
    } else if 97 <= u <= 122 {
        u - 97 + 10
    } else if 65 <= u <= 90 {
        u - 65 + 10
    } else {
        radix as int
    };
    if 0 <= d < radix {
        Some(d as nat)
    } else {
        None
    }
}

/// The ASCII lower-case form of `c`.
pub open spec fn ascii_lower(c: char) -> char {
    if 65 <= (c as u32) <= 90 {
        ((c as u32) + 32) as char
    } else {
        c
    }
}

/// The ASCII upper-case form of `c`.
pub open spec fn ascii_upper(c: char) -> char {
    if 97 <= (c as u32) <= 122 {
        ((c as u32) - 32) as char
    } else {
        c
    }
}

/// Whether all characters of `s` are ASCII.
pub open spec fn is_ascii_text(s: Seq<char>) -> bool {
    forall|i: int| 0 <= i < s.len() ==> ((#[trigger] s[i]) as u32) < 128
}

/// `s` with its ASCII letters in lower case.
pub open spec fn ascii_lowercase(s: Seq<char>) -> Seq<char> {
    s.map_values(|c: char| ascii_lower(c))
}

/// `s` with its ASCII letters in upper case.
pub open spec fn ascii_uppercase(s: Seq<char>) -> Seq<char> {
    s.map_values(|c: char| ascii_upper(c))
}

/// The character that writes digit `d` (below 16): `0`-`9`, then `a`-`f`,
/// or `A`-`F` where `upper`.
pub open spec fn digit_char(d: nat, upper: bool) -> char {
    if d < 10 {
        (48 + d) as char
    } else if upper {
        (55 + d) as char
    } else {
        (87 + d) as char
    }
}

/// How `n` is written in `radix` (2 to 16) with no leading zeros, as
/// `to_string` or the `{:x}` and `{:X}` formats write it.
pub open spec fn render_digits(n: nat, radix: nat, upper: bool) -> Seq<char>
    decreases n,
{
    if radix < 2 || n < radix {
        seq![digit_char(n, upper)]
    } else {
        proof {
            assert(n / radix < n) by (nonlinear_arith)
                requires
                    radix >= 2,
                    n >= radix,
            ;
        }
        render_digits(n / radix, radix, upper).push(digit_char(n % radix, upper))
    }
}

/// `k` zeros, as a width in a format pads with.
pub open spec fn zeros(k: nat) -> Seq<char> {
    Seq::new(k, |i: int| '0')
}

/// The way a number is written, with or without leading zeros, is ASCII.
pub proof fn lemma_render_digits_ascii(n: nat, radix: nat, upper: bool, k: nat)
    requires
        radix == 10 || radix == 16,
    ensures
        is_ascii_text(render_digits(n, radix, upper)),
        is_ascii_text(zeros(k) + render_digits(n, radix, upper)),
    decreases n,
{
    let t = render_digits(n, radix, upper);
    if n >= radix {
        assert(n / radix < n) by (nonlinear_arith)
            requires
                radix >= 2,
                n >= radix,
        ;
        lemma_render_digits_ascii(n / radix, radix, upper, k);
        assert(n % radix < 16) by (nonlinear_arith)
            requires
                radix <= 16,
                radix > 0,
        ;
    }
    assert forall|i: int| 0 <= i < t.len() implies ((#[trigger] t[i]) as u32) < 128 by {
        if n >= radix && i < t.len() - 1 {
            assert(t[i] == render_digits(n / radix, radix, upper)[i]);
        }
    }
    let z = zeros(k) + t;
    assert forall|i: int| 0 <= i < z.len() implies ((#[trigger] z[i]) as u32) < 128 by {
        if i >= k {
            assert(z[i] == t[i - k]);
        }
    }
}

/// A digit's value does not depend on the ASCII case it is written in.
pub proof fn lemma_digit_value_case(c: char, radix: nat)
    ensures
        digit_value(ascii_lower(c), radix) == digit_value(c, radix),
        digit_value(ascii_upper(c), radix) == digit_value(c, radix),
{
}

/// A run of digits reads the same in any ASCII case.
pub proof fn lemma_digits_value_case(s: Seq<char>, radix: nat)
    ensures
        digits_value(ascii_lowercase(s), radix) == digits_value(s, radix),
        digits_value(ascii_uppercase(s), radix) == digits_value(s, radix),
    decreases s.len(),
{
    if s.len() > 0 {
        lemma_digits_value_case(s.drop_last(), radix);
        lemma_digit_value_case(s.last(), radix);
        assert(ascii_lowercase(s).drop_last() =~= ascii_lowercase(s.drop_last()));
        assert(ascii_uppercase(s).drop_last() =~= ascii_uppercase(s.drop_last()));
    }
}

/// Lower-casing after upper-casing, or the other way round, is the same as
/// lower-casing (upper-casing) alone.
pub proof fn lemma_ascii_case_absorbs(s: Seq<char>)
    ensures
        ascii_lowercase(ascii_uppercase(s)) == ascii_lowercase(s),
        ascii_lowercase(ascii_lowercase(s)) == ascii_lowercase(s),
        ascii_uppercase(ascii_lowercase(s)) == ascii_uppercase(s),
        ascii_uppercase(ascii_uppercase(s)) == ascii_uppercase(s),
        is_ascii_text(s) ==> is_ascii_text(ascii_lowercase(s)) && is_ascii_text(ascii_uppercase(s)),
{
    assert(ascii_lowercase(ascii_uppercase(s)) =~= ascii_lowercase(s));
    assert(ascii_lowercase(ascii_lowercase(s)) =~= ascii_lowercase(s));
    assert(ascii_uppercase(ascii_lowercase(s)) =~= ascii_uppercase(s));
    assert(ascii_uppercase(ascii_uppercase(s)) =~= ascii_uppercase(s));
}

/// A digit character reads as its digit.
pub proof fn lemma_digit_char_value(d: nat, radix: nat, upper: bool)
    requires
        radix == 10 || radix == 16,
        d < radix,
    ensures
        digit_value(digit_char(d, upper), radix) == Some(d),
        digit_char(d, upper) != '+',
{
    let c = digit_char(d, upper);
    if d < 10 {
        assert(c as u32 == 48 + d);
    } else if upper {
        assert(c as u32 == 55 + d);
    } else {
        assert(c as u32 == 87 + d);
    }
}

/// The way `n` is written in radix 10 or 16 reads back as `n`.
pub proof fn lemma_render_digits_value(n: nat, radix: nat, upper: bool)
    requires
        radix == 10 || radix == 16,
    ensures
        digits_value(render_digits(n, radix, upper), radix) == Some(n),
        render_digits(n, radix, upper).len() > 0,
        render_digits(n, radix, upper)[0] != '+',
    decreases n,
{
    if n < radix {
        lemma_digit_char_value(n, radix, upper);
        let t = render_digits(n, radix, upper);
        assert(t =~= seq![digit_char(n, upper)]);
        assert(t.drop_last() =~= Seq::<char>::empty());
        assert(t.last() == digit_char(n, upper));
        assert(digits_value(t.drop_last(), radix) == Some(0nat));
        assert(0 * radix + n == n);
    } else {
        let q = n / radix;
        let d = n % radix;
        assert(q < n) by (nonlinear_arith)
            requires
                radix >= 2,
                n >= radix,
                q == n / radix,
        ;
        lemma_render_digits_value(q, radix, upper);
        assert(n == q * radix + d) by (nonlinear_arith)
            requires
                radix > 0,
                q == n / radix,
                d == n % radix,
        ;
        lemma_digit_char_value(d, radix, upper);
        let t = render_digits(n, radix, upper);
        assert(t.drop_last() =~= render_digits(q, radix, upper));
        assert(t.last() == digit_char(d, upper));
        assert(t[0] == render_digits(q, radix, upper)[0]);
    }
}

/// Leading zeros do not change what a run of digits reads as.
pub proof fn lemma_leading_zeros(k: nat, t: Seq<char>, radix: nat)
    requires
        radix == 10 || radix == 16,
    ensures
        digits_value(zeros(k) + t, radix) == digits_value(t, radix),
    decreases t.len(),
{
    if t.len() == 0 {
        lemma_zeros_value(k, radix);
        assert(zeros(k) + t =~= zeros(k));
    } else {
        lemma_leading_zeros(k, t.drop_last(), radix);
        assert((zeros(k) + t).drop_last() =~= zeros(k) + t.drop_last());
    }
}

/// A run of zeros reads as zero.
pub proof fn lemma_zeros_value(k: nat, radix: nat)
    requires
        radix == 10 || radix == 16,
    ensures
        digits_value(zeros(k), radix) == Some(0nat),
    decreases k,
{
    if k > 0 {
        lemma_zeros_value((k - 1) as nat, radix);
        assert(zeros(k).drop_last() =~= zeros((k - 1) as nat));
    }
}

/// A run in which some character is no digit reads as nothing.
pub proof fn lemma_digits_with_non_digit(s: Seq<char>, radix: nat, i: int)
    requires
        radix >= 1,
        0 <= i < s.len(),
        digit_value(s[i], radix) is None,
    ensures
        digits_value(s, radix) is None,
{
    if digits_value(s, radix) is Some {
        lemma_digits_prefix(s, radix, i + 1);
        assert(s.take(i + 1).last() == s[i]);
    }
}

/// The number that the digits `s` stand for in `radix`, most significant
/// first; `None` where some character is no digit.
pub open spec fn digits_value(s: Seq<char>, radix: nat) -> Option<nat>
    decreases s.len(),
{
    if s.len() == 0 {
        Some(0)
    } else {
        match (digits_value(s.drop_last(), radix), digit_value(s.last(), radix)) {
            (Some(v), Some(d)) => Some(v * radix + d),
            _ => None,
        }
    }
}

/// What the `from_str_radix` of an unsigned integer type reads from `s`:
/// an optional leading `+`, then at least one digit and nothing else.
/// The number is not bounded here.
pub open spec fn unsigned_value(s: Seq<char>, radix: nat) -> Option<nat> {
    let body = if s.len() > 0 && s[0] == '+' {
        s.drop_first()
    } else {
        s
    };
    if body.len() == 0 {
        None
    } else {
        digits_value(body, radix)
    }
}

/// `u16::from_str_radix(s, radix)`, as an option.
pub open spec fn u16_from_str_radix(s: Seq<char>, radix: nat) -> Option<u16> {
    match unsigned_value(s, radix) {
        Some(v) => if v <= u16::MAX {
            Some(v as u16)
        } else {
            None
        },
        None => None,
    }
}

/// `u64::from_str(s)`, as an option.
pub open spec fn u64_from_str(s: Seq<char>) -> Option<u64> {
    match unsigned_value(s, 10) {
        Some(v) => if v <= u64::MAX {
            Some(v as u64)
        } else {
            None
        },
        None => None,
    }
}

/// Reading a longer run of digits never gives a smaller number, and a run
/// that reads as a number reads so in each of its prefixes.
pub proof fn lemma_digits_prefix(s: Seq<char>, radix: nat, k: int)
    requires
        radix >= 1,
        0 <= k <= s.len(),
        digits_value(s, radix) is Some,
    ensures
        digits_value(s.take(k), radix) is Some,
        digits_value(s.take(k), radix).unwrap() <= digits_value(s, radix).unwrap(),
    decreases s.len(),
{
    if k == s.len() {
        assert(s.take(k) =~= s);
    } else {
        let t = s.drop_last();
        lemma_digits_prefix(t, radix, k);
        assert(t.take(k) =~= s.take(k));
        let v = digits_value(t, radix).unwrap();
        let d = digit_value(s.last(), radix).unwrap();
        assert(v <= v * radix + d) by (nonlinear_arith)
            requires
                radix >= 1,
        ;
    }
}

/// The value of the digit `c` in radix 10 or 16.
fn digit_of(c: char, radix: u32) -> (r: Option<u32>)
    requires
        radix == 10 || radix == 16,
    ensures
        match r {
            Some(d) => digit_value(c, radix as nat) == Some(d as nat) && d < radix,
            None => digit_value(c, radix as nat) is None,
        },
{
    let u = c as u32;
    let d: u32 = if 48 <= u && u <= 57 {
        u - 48
    } else if 97 <= u && u <= 122 {
        u - 97 + 10
    } else if 65 <= u && u <= 90 {
        u - 65 + 10
    } else {
        radix
    };
    if d < radix {
        Some(d)
    } else {
        None
    }
}

/// Reads `s` as `u16::from_str_radix` does, for radix 10 or 16: an optional
/// `+` and then only digits, for a number that fits in a `u16`.
pub fn parse_u16_radix(s: &str, radix: u32) -> (r: Option<u16>)
    requires
        radix == 10 || radix == 16,
    ensures
        r == u16_from_str_radix(s@, radix as nat),
{
    let n = s.unicode_len();
    let start: usize = if n > 0 && s.get_char(0) == '+' {
        1
    } else {
        0
    };
    if start == n {
        return None;
    }
    let ghost body = s@.subrange(start as int, n as int);
    assert(body =~= (if s@.len() > 0 && s@[0] == '+' {
        s@.drop_first()
    } else {
        s@
    }));
    let mut acc: u32 = 0;
    let mut i: usize = start;
    assert(body.take(0) =~= Seq::<char>::empty());
    while i < n
        invariant
            n == s@.len(),
            start <= i <= n,
            body == s@.subrange(start as int, n as int),
            radix == 10 || radix == 16,
            acc <= u16::MAX,
            body.len() > 0,
            unsigned_value(s@, radix as nat) == digits_value(body, radix as nat),
            digits_value(body.take(i - start), radix as nat) == Some(acc as nat),
        decreases n - i,
    {
        let c = s.get_char(i);
        let ghost j = i - start;
        assert(body.take(j + 1).drop_last() =~= body.take(j));
        assert(body.take(j + 1).last() == c);
        assert(body.take(j + 1).len() == j + 1);
        match digit_of(c, radix) {
            None => {
                proof {
                    if digits_value(body, radix as nat) is Some {
                        lemma_digits_prefix(body, radix as nat, j + 1);
                    }
                }
                return None;
            },
            Some(d) => {
                let next = acc * radix + d;
                if next > 0xffff {
                    proof {
                        if digits_value(body, radix as nat) is Some {
                            lemma_digits_prefix(body, radix as nat, j + 1);
                        }
                    }
                    return None;
                }
                acc = next;
            },
        }
        i = i + 1;
    }
    assert(body.take(n - start) =~= body);
    Some(acc as u16)
}

/// Whether `s` begins with `prefix`.
pub fn starts_with(s: &str, prefix: &str) -> (r: bool)
    ensures
        r == prefix@.is_prefix_of(s@),
{
    let n = s.unicode_len();
    let m = prefix.unicode_len();
    if m > n {
        return false;
    }
    let mut i: usize = 0;
    while i < m
        invariant
            n == s@.len(),
            m == prefix@.len(),
            m <= n,
            i <= m,
            forall|j: int| 0 <= j < i ==> s@[j] == prefix@[j],
        decreases m - i,
    {
        if s.get_char(i) != prefix.get_char(i) {
            return false;
        }
        i = i + 1;
    }
    assert(prefix@ =~= s@.subrange(0, m as int));
    true
}

/// Whether `a` and `b` hold the same characters.
pub fn str_eq(a: &str, b: &str) -> (r: bool)
    ensures
        r == (a@ == b@),
{
    let n = a.unicode_len();
    if n != b.unicode_len() {
        return false;
    }
    let r = starts_with(a, b);
    proof {
        if r {
            assert(a@ =~= b@);
        }
    }
    r
}

/// What `str::to_uppercase` makes of a string: its upper-case equivalent as
/// Unicode defines it (a character may map to several).
pub uninterp spec fn uppercase_of(s: Seq<char>) -> Seq<char>;

/// What `str::to_lowercase` makes of a string: its lower-case equivalent as
/// Unicode defines it (a character may map to several, and a capital sigma
/// maps by its place in a word).
pub uninterp spec fn lowercase_of(s: Seq<char>) -> Seq<char>;

/// Calls `str::to_uppercase`. Its result is taken to be a function of the
/// characters of `s` alone, named `uppercase_of`; of ASCII text it is
/// stated that each letter `a`-`z` becomes `A`-`Z` and nothing else changes.
/// Nothing is claimed of other characters.
#[verifier::external_body]
pub(crate) fn to_uppercase(s: &str) -> (r: String)
    ensures
        r@ == uppercase_of(s@),
        is_ascii_text(s@) ==> r@ == ascii_uppercase(s@),
{
    s.to_uppercase()
}

/// Calls `str::to_lowercase`. Its result is taken to be a function of the
/// characters of `s` alone, named `lowercase_of`; of ASCII text it is
/// stated that each letter `A`-`Z` becomes `a`-`z` and nothing else changes.
/// Nothing is claimed of other characters.
#[verifier::external_body]
pub(crate) fn to_lowercase(s: &str) -> (r: String)
    ensures
        r@ == lowercase_of(s@),
        is_ascii_text(s@) ==> r@ == ascii_lowercase(s@),
{
    s.to_lowercase()
}

} // verus!
