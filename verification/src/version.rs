//! Reading the OBS major version out of an application bundle's
//! `Info.plist`.

use vstd::prelude::*;
use vstd::std_specs::iter::IteratorSpec;

verus! {

broadcast use {vstd::string::axiom_spec_iter, vstd::string::next_postcondition};

/// The characters of `s`, in order.
pub fn chars_of(s: &str) -> (v: Vec<char>)
    ensures
        v@ == s@,
{
    let mut it = s.chars();
    let mut v: Vec<char> = Vec::new();
    loop
        invariant
            it.obeys_prophetic_iter_laws(),
            v@ + it.remaining() == s@,
            it.decrease() is Some,
        decreases it.decrease()->0,
    {
        let ghost before = it.remaining();
        match it.next() {
            Some(c) => {
                v.push(c);
                assert(v@ + it.remaining() =~= s@) by {
                    assert(before == seq![c] + it.remaining());
                }
            },
            None => {
                assert(v@ =~= s@);
                return v;
            },
        }
    }
}


/// The first position at or after `i` where `pat` occurs in `s`.
pub open spec fn find_from(s: Seq<char>, pat: Seq<char>, i: int) -> Option<int>
    decreases s.len() + 1 - i,
{
    if i < 0 || i + pat.len() > s.len() {
        None
    } else if s.subrange(i, i + pat.len()) == pat {
        Some(i)
    } else {
        find_from(s, pat, i + 1)
    }
}

/// Whether `c` is a Unicode `White_Space` character (what `char::is_whitespace`
/// and `str::trim` recognise).
pub open spec fn is_white_space(c: char) -> bool {
    let v = c as u32;
    (0x09 <= v && v <= 0x0d) || v == 0x20 || v == 0x85 || v == 0xa0 || v == 0x1680 || (0x2000
        <= v && v <= 0x200a) || v == 0x2028 || v == 0x2029 || v == 0x202f || v == 0x205f || v
        == 0x3000
}

/// The first position in `[i, end)` that does not hold white space, or `end`.
pub open spec fn skip_space_forward(s: Seq<char>, i: int, end: int) -> int
    decreases end - i,
{
    if i < end && is_white_space(s[i]) {
        skip_space_forward(s, i + 1, end)
    } else {
        i
    }
}

/// The end of `[start, j)` once trailing white space is dropped.
pub open spec fn skip_space_backward(s: Seq<char>, start: int, j: int) -> int
    decreases j - start,
{
    if j > start && is_white_space(s[j - 1]) {
        skip_space_backward(s, start, j - 1)
    } else {
        j
    }
}

/// The first position in `[i, end)` holding `c`, or `end`.
pub open spec fn find_char(s: Seq<char>, c: char, i: int, end: int) -> int
    decreases end - i,
{
    if i >= end {
        end
    } else if s[i] == c {
        i
    } else {
        find_char(s, c, i + 1, end)
    }
}

/// Whether `c` is an ASCII decimal digit.
pub open spec fn is_digit(c: char) -> bool {
    '0' <= c && c <= '9'
}

/// The decimal value of the digits in `s[a..b]`.
pub open spec fn digits_value(s: Seq<char>, a: int, b: int) -> int
    decreases b - a,
{
    if b <= a {
        0
    } else {
        digits_value(s, a, b - 1) * 10 + (s[b - 1] as int - '0' as int)
    }
}

/// What `u32::from_str` makes of `s[a..b]`: an optional `+`, then at least
/// one decimal digit, with a value that fits in a `u32`.
pub open spec fn parse_u32(s: Seq<char>, a: int, b: int) -> Option<u32> {
    let d = if a < b && s[a] == '+' {
        a + 1
    } else {
        a
    };
    if d < b && (forall|i: int| d <= i < b ==> is_digit(#[trigger] s[i])) && digits_value(s, d, b)
        <= u32::MAX {
        Some(digits_value(s, d, b) as u32)
    } else {
        None
    }
}

/// The major component of the version string that follows `key` in the
/// property list `s`: the text of the first `open ... close` element after
/// the key, with surrounding white space removed, up to its first `.`,
/// read as a `u32`.
pub open spec fn spec_version_major(
    s: Seq<char>,
    key: Seq<char>,
    open: Seq<char>,
    close: Seq<char>,
) -> Option<u32> {
    match find_from(s, key, 0) {
        None => None,
        Some(k) => match find_from(s, open, k + key.len()) {
            None => None,
            Some(o) => {
                let start = o + open.len();
                match find_from(s, close, start) {
                    None => None,
                    Some(c) => {
                        let lo = skip_space_forward(s, start, c);
                        let hi = skip_space_backward(s, lo, c);
                        parse_u32(s, lo, find_char(s, '.', lo, hi))
                    },
                }
            },
        },
    }
}

/// A match found by `find_from` lies inside `s`, at or after the start.
proof fn lemma_find_from_bounds(s: Seq<char>, pat: Seq<char>, i: int)
    ensures
        find_from(s, pat, i) matches Some(j) ==> i <= j && j + pat.len() <= s.len() && 0 <= j,
    decreases s.len() + 1 - i,
{
    if i < 0 || i + pat.len() > s.len() {
    } else if s.subrange(i, i + pat.len()) == pat {
    } else {
        lemma_find_from_bounds(s, pat, i + 1);
    }
}

/// Whether `pat` occurs in `s` at position `i`.
fn matches_at(s: &Vec<char>, i: usize, pat: &Vec<char>) -> (r: bool)
    requires
        i + pat.len() <= s.len(),
    ensures
        r == (s@.subrange(i as int, i + pat.len()) == pat@),
{
    let mut j: usize = 0;
    while j < pat.len()
        invariant
            i + pat.len() <= s.len(),
            j <= pat.len(),
            forall|k: int| 0 <= k < j ==> s@[i + k] == pat@[k],
        decreases pat.len() - j,
    {
        if s[i + j] != pat[j] {
            assert(s@.subrange(i as int, i + pat.len())[j as int] != pat@[j as int]);
            return false;
        }
        j = j + 1;
    }
    assert(s@.subrange(i as int, i + pat.len()) =~= pat@);
    true
}

/// The first position at or after `from` where `pat` occurs in `s`.
fn find_chars(s: &Vec<char>, pat: &Vec<char>, from: usize) -> (r: Option<usize>)
    requires
        from <= s.len(),
    ensures
        match r {
            Some(i) => find_from(s@, pat@, from as int) == Some(i as int) && from <= i && i
                + pat.len() <= s.len(),
            None => find_from(s@, pat@, from as int) is None,
        },
{
    if pat.len() > s.len() {
        return None;
    }
    if pat.len() == 0 {
        assert(s@.subrange(from as int, from as int) =~= pat@);
        return Some(from);
    }
    let mut i = from;
    while i <= s.len() - pat.len()
        invariant
            from <= i,
            1 <= pat.len() <= s.len(),
            find_from(s@, pat@, from as int) == find_from(s@, pat@, i as int),
        decreases s.len() - i,
    {
        if matches_at(s, i, pat) {
            proof {
                lemma_find_from_bounds(s@, pat@, from as int);
            }
            return Some(i);
        }
        i = i + 1;
    }
    None
}

/// `digits_value` only grows as digits are appended.
proof fn lemma_digits_value_grows(s: Seq<char>, a: int, b: int, c: int)
    requires
        a <= b <= c,
        forall|i: int| a <= i < c ==> is_digit(#[trigger] s[i]),
    ensures
        digits_value(s, a, b) <= digits_value(s, a, c),
        digits_value(s, a, b) >= 0,
    decreases c - b,
{
    if b < c {
        lemma_digits_value_grows(s, a, b, c - 1);
        lemma_digits_value_nonneg(s, a, c - 1);
    } else {
        lemma_digits_value_nonneg(s, a, b);
    }
}

proof fn lemma_digits_value_nonneg(s: Seq<char>, a: int, b: int)
    requires
        forall|i: int| a <= i < b ==> is_digit(#[trigger] s[i]),
    ensures
        digits_value(s, a, b) >= 0,
    decreases b - a,
{
    if b > a {
        lemma_digits_value_nonneg(s, a, b - 1);
    }
}

/// What `u32::from_str` makes of `s[a..b]`.
fn parse_u32_at(s: &Vec<char>, a: usize, b: usize) -> (r: Option<u32>)
    requires
        a <= b <= s.len(),
    ensures
        r == parse_u32(s@, a as int, b as int),
{
    let d = if a < b && s[a] == '+' {
        a + 1
    } else {
        a
    };
    if d >= b {
        return None;
    }
    let mut value: u64 = 0;
    let mut i = d;
    while i < b
        invariant
            a <= d <= i <= b <= s.len(),
            d == if a < b && s@[a as int] == '+' {
                a + 1
            } else {
                a as int
            },
            d < b,
            forall|k: int| d <= k < i ==> is_digit(#[trigger] s@[k]),
            value == digits_value(s@, d as int, i as int),
            value <= u32::MAX,
        decreases b - i,
    {
        let c = s[i];
        if !('0' <= c && c <= '9') {
            assert(!is_digit(s@[i as int]));
            return None;
        }
        let digit = (c as u32 - '0' as u32) as u64;
        let next = value * 10 + digit;
        if next > u32::MAX as u64 {
            proof {
                assert(digits_value(s@, d as int, i + 1) == next);
                if forall|k: int| d <= k < b ==> is_digit(#[trigger] s@[k]) {
                    lemma_digits_value_grows(s@, d as int, i + 1, b as int);
                }
            }
            return None;
        }
        value = next;
        i = i + 1;
    }
    Some(value as u32)
}

/// Reads the OBS major version from the text of an `Info.plist`: the
/// leading number of the `CFBundleShortVersionString` value. Returns `None`
/// when the key, its `<string>` element or a readable number is missing.
pub fn parse_short_version_major(plist: &str) -> (r: Option<u32>)
    ensures
        r == spec_version_major(
            plist@,
            "<key>CFBundleShortVersionString</key>"@,
            "<string>"@,
            "</string>"@,
        ),
{
    let s = chars_of(plist);
    let key = chars_of("<key>CFBundleShortVersionString</key>");
    let open = chars_of("<string>");
    let close = chars_of("</string>");
    let k = match find_chars(&s, &key, 0) {
        Some(k) => k,
        None => {
            return None;
        },
    };
    let o = match find_chars(&s, &open, k + key.len()) {
        Some(o) => o,
        None => {
            return None;
        },
    };
    let start = o + open.len();
    let c = match find_chars(&s, &close, start) {
        Some(c) => c,
        None => {
            return None;
        },
    };
    let lo = skip_space_forward_at(&s, start, c);
    let hi = skip_space_backward_at(&s, lo, c);
    let dot = find_char_at(&s, '.', lo, hi);
    parse_u32_at(&s, lo, dot)
}

/// What `s.trim().parse::<u32>()` gives: the text without surrounding
/// white space, read as a `u32`.
pub open spec fn spec_trimmed_u32(s: Seq<char>) -> Option<u32> {
    let lo = skip_space_forward(s, 0, s.len() as int);
    let hi = skip_space_backward(s, lo, s.len() as int);
    parse_u32(s, lo, hi)
}

/// Reads a major version given as a whole number with optional
/// surrounding white space (how the `OBS_LIBRARY_MAJOR_VER` override is
/// written).
pub fn parse_major_override(text: &str) -> (r: Option<u32>)
    ensures
        r == spec_trimmed_u32(text@),
{
    let s = chars_of(text);
    let lo = skip_space_forward_at(&s, 0, s.len());
    let hi = skip_space_backward_at(&s, lo, s.len());
    parse_u32_at(&s, lo, hi)
}

/// The major component of a dotted version string: the text before the
/// first `.`, without surrounding white space, read as a `u32`.
pub open spec fn spec_leading_major(s: Seq<char>) -> Option<u32> {
    let d = find_char(s, '.', 0, s.len() as int);
    let lo = skip_space_forward(s, 0, d);
    let hi = skip_space_backward(s, lo, d);
    parse_u32(s, lo, hi)
}

/// Reads the libobs major version from what `pkg-config --modversion
/// libobs` prints (e.g. `"31.0.3\n"`).
pub fn parse_pkg_config_major(version: &str) -> (r: Option<u32>)
    ensures
        r == spec_leading_major(version@),
{
    let s = chars_of(version);
    let d = find_char_at(&s, '.', 0, s.len());
    let lo = skip_space_forward_at(&s, 0, d);
    let hi = skip_space_backward_at(&s, lo, d);
    parse_u32_at(&s, lo, hi)
}

/// The major version a shared-library file name carries: for a name
/// starting with `libobs.so.`, the text after it up to the next `.`, read as
/// a `u32`; no other name carries one.
pub open spec fn spec_soname_major(name: Seq<char>) -> Option<u32> {
    let prefix = "libobs.so."@;
    if name.len() >= prefix.len() && name.subrange(0, prefix.len() as int) == prefix {
        parse_u32(name, prefix.len() as int, find_char(name, '.', prefix.len() as int, name.len() as int))
    } else {
        None
    }
}

/// Reads the libobs major version from a file name such as
/// `libobs.so.30` or `libobs.so.31.0.3`.
pub fn libobs_soname_major(name: &str) -> (r: Option<u32>)
    ensures
        r == spec_soname_major(name@),
{
    let s = chars_of(name);
    let prefix = chars_of("libobs.so.");
    if s.len() < prefix.len() || !matches_at(&s, 0, &prefix) {
        return None;
    }
    let d = find_char_at(&s, '.', prefix.len(), s.len());
    parse_u32_at(&s, prefix.len(), d)
}

/// The OBS major versions the bindings can be built against, in order.
pub const SUPPORTED_MAJORS: [u32; 3] = [30, 31, 32];

/// Why no single OBS major version is selected for the build.
#[derive(Debug, Clone, PartialEq, Eq)]
pub enum MajorSelectionError {
    /// No `obs-XX` feature is enabled.
    NoneEnabled,
    /// More than one `obs-XX` feature is enabled: these majors, in order.
    Multiple(Vec<u32>),
}

/// The supported majors whose feature is enabled, in order; `enabled[i]`
/// says whether the feature of the `i`-th supported major is.
pub open spec fn spec_enabled_majors(enabled: [bool; 3]) -> Seq<u32> {
    (if enabled[0] {
        seq![30u32]
    } else {
        Seq::empty()
    }) + (if enabled[1] {
        seq![31u32]
    } else {
        Seq::empty()
    }) + (if enabled[2] {
        seq![32u32]
    } else {
        Seq::empty()
    })
}

/// Picks the OBS major version to build against from which `obs-XX`
/// features are enabled (`enabled[i]` for the `i`-th of
/// [`SUPPORTED_MAJORS`]): exactly one must be.
pub fn select_obs_major(enabled: [bool; 3]) -> (r: Result<u32, MajorSelectionError>)
    ensures
        spec_enabled_majors(enabled).len() == 1 ==> r == Ok::<u32, MajorSelectionError>(
            spec_enabled_majors(enabled)[0],
        ),
        spec_enabled_majors(enabled).len() == 0 ==> r == Err::<u32, MajorSelectionError>(
            MajorSelectionError::NoneEnabled,
        ),
        spec_enabled_majors(enabled).len() > 1 ==> (r matches Err(MajorSelectionError::Multiple(m))
            && m@ == spec_enabled_majors(enabled)),
{
    let mut majors: Vec<u32> = Vec::new();
    let mut i: usize = 0;
    while i < 3
        invariant
            i <= 3,
            majors@ == spec_enabled_majors(
                [enabled[0] && i > 0, enabled[1] && i > 1, enabled[2] && i > 2],
            ),
        decreases 3 - i,
    {
        if enabled[i] {
            majors.push(SUPPORTED_MAJORS[i]);
        }
        proof {
            assert(majors@ =~= spec_enabled_majors(
                [enabled[0] && i + 1 > 0, enabled[1] && i + 1 > 1, enabled[2] && i + 1 > 2],
            ));
        }
        i = i + 1;
    }
    assert([enabled[0] && 3 > 0, enabled[1] && 3 > 1, enabled[2] && 3 > 2] == enabled);
    if majors.len() == 1 {
        Ok(majors[0])
    } else if majors.len() == 0 {
        Err(MajorSelectionError::NoneEnabled)
    } else {
        Err(MajorSelectionError::Multiple(majors))
    }
}

/// Why a `#define` could not be read from a header.
#[derive(Debug, Clone, Copy, PartialEq, Eq, Structural)]
pub enum DefineError {
    /// No line defines the name.
    NotFound,
    /// The first line defining the name gives no readable `u32`.
    Unparsable,
}

/// The value the first line from position `i` on that defines a name
/// gives: lines are separated by `\n` and read without surrounding white
/// space; a line defines the name when it starts with `prefix`
/// (`#define NAME `), and its value is the rest without surrounding white
/// space, read as a `u32`. `None` when no such line follows.
pub open spec fn define_value(s: Seq<char>, prefix: Seq<char>, i: int) -> Option<Option<u32>>
    decreases s.len() + 1 - i,
{
    if i < 0 || i > s.len() {
        None
    } else {
        let e = find_char(s, '\n', i, s.len() as int);
        let lo = skip_space_forward(s, i, e);
        let hi = skip_space_backward(s, lo, e);
        if hi - lo >= prefix.len() && s.subrange(lo, lo + prefix.len()) == prefix {
            let a = lo + prefix.len();
            let lo2 = skip_space_forward(s, a, hi);
            let hi2 = skip_space_backward(s, lo2, hi);
            Some(parse_u32(s, lo2, hi2))
        } else if e < i || e > s.len() {
            None
        } else {
            define_value(s, prefix, e + 1)
        }
    }
}

/// What [`header_define`] gives for the header text `s` and the name
/// `key`.
pub open spec fn spec_header_define(s: Seq<char>, key: Seq<char>) -> Result<u32, DefineError> {
    match define_value(s, "#define "@ + key + " "@, 0) {
        None => Err(DefineError::NotFound),
        Some(None) => Err(DefineError::Unparsable),
        Some(Some(v)) => Ok(v),
    }
}

/// Reads the value of `#define key <number>` from the text of a C header
/// such as `obs-config.h`: the first line defining `key` decides.
pub fn header_define(contents: &str, key: &str) -> (r: Result<u32, DefineError>)
    ensures
        r == spec_header_define(contents@, key@),
{
    let s = chars_of(contents);
    let mut prefix = chars_of("#define ");
    let mut k = chars_of(key);
    prefix.append(&mut k);
    prefix.push(' ');
    proof {
        reveal_strlit("#define ");
        reveal_strlit(" ");
        assert(prefix@ =~= "#define "@ + key@ + " "@);
    }
    let mut i: usize = 0;
    while i <= s.len()
        invariant
            i <= s.len() + 1,
            s@ == contents@,
            prefix@ == "#define "@ + key@ + " "@,
            define_value(s@, prefix@, 0) == define_value(s@, prefix@, i as int),
        decreases s.len() + 1 - i,
    {
        let e = find_char_at(&s, '\n', i, s.len());
        let lo = skip_space_forward_at(&s, i, e);
        let hi = skip_space_backward_at(&s, lo, e);
        if hi - lo >= prefix.len() && matches_at(&s, lo, &prefix) {
            let a = lo + prefix.len();
            let lo2 = skip_space_forward_at(&s, a, hi);
            let hi2 = skip_space_backward_at(&s, lo2, hi);
            assert(s@.subrange(lo as int, lo + prefix@.len()) == prefix@);
            assert(define_value(s@, prefix@, i as int) == Some(
                parse_u32(s@, lo2 as int, hi2 as int),
            ));
            return match parse_u32_at(&s, lo2, hi2) {
                Some(v) => Ok(v),
                None => Err(DefineError::Unparsable),
            };
        }
        assert(define_value(s@, prefix@, i as int) == define_value(s@, prefix@, e + 1));
        if e == s.len() {
            assert(define_value(s@, prefix@, e + 1) == None::<Option<u32>>);
            return Err(DefineError::NotFound);
        }
        i = e + 1;
    }
    Err(DefineError::NotFound)
}

/// The first position in `[i, end)` that does not hold white space, or `end`.
fn skip_space_forward_at(s: &Vec<char>, i: usize, end: usize) -> (r: usize)
    requires
        i <= end <= s.len(),
    ensures
        r == skip_space_forward(s@, i as int, end as int),
        i <= r <= end,
{
    let mut lo = i;
    while lo < end && is_space_char(s[lo])
        invariant
            i <= lo <= end,
            end <= s.len(),
            skip_space_forward(s@, i as int, end as int) == skip_space_forward(
                s@,
                lo as int,
                end as int,
            ),
        decreases end - lo,
    {
        lo = lo + 1;
    }
    lo
}

/// The end of `[start, j)` once trailing white space is dropped.
fn skip_space_backward_at(s: &Vec<char>, start: usize, j: usize) -> (r: usize)
    requires
        start <= j <= s.len(),
    ensures
        r == skip_space_backward(s@, start as int, j as int),
        start <= r <= j,
{
    let mut hi = j;
    while hi > start && is_space_char(s[hi - 1])
        invariant
            start <= hi <= j,
            j <= s.len(),
            skip_space_backward(s@, start as int, j as int) == skip_space_backward(
                s@,
                start as int,
                hi as int,
            ),
        decreases hi - start,
    {
        hi = hi - 1;
    }
    hi
}

/// The first position in `[i, end)` holding `c`, or `end`.
fn find_char_at(s: &Vec<char>, c: char, i: usize, end: usize) -> (r: usize)
    requires
        i <= end <= s.len(),
    ensures
        r == find_char(s@, c, i as int, end as int),
        i <= r <= end,
{
    let mut k = i;
    while k < end && s[k] != c
        invariant
            i <= k <= end,
            end <= s.len(),
            find_char(s@, c, i as int, end as int) == find_char(s@, c, k as int, end as int),
        decreases end - k,
    {
        k = k + 1;
    }
    k
}

/// Whether `c` is white space in the sense of `char::is_whitespace`.
fn is_space_char(c: char) -> (r: bool)
    ensures
        r == is_white_space(c),
{
    let v = c as u32;
    (0x09 <= v && v <= 0x0d) || v == 0x20 || v == 0x85 || v == 0xa0 || v == 0x1680 || (0x2000
        <= v && v <= 0x200a) || v == 0x2028 || v == 0x2029 || v == 0x202f || v == 0x205f || v
        == 0x3000
}

} // verus!
