//! Identifier derivation: case conversion, pluralization and the method
//! names built from object names.
use vstd::prelude::*;
use crate::text::{chars_of, string_of, extend_chars};

verus! {

pub open spec fn is_upper(c: char) -> bool {
    'A' <= c && c <= 'Z'
}

pub open spec fn is_lower(c: char) -> bool {
    'a' <= c && c <= 'z'
}

pub open spec fn is_digit(c: char) -> bool {
    '0' <= c && c <= '9'
}

pub open spec fn is_alnum(c: char) -> bool {
    is_upper(c) || is_lower(c) || is_digit(c)
}

/// ASCII lower-casing of one character.
pub open spec fn lower(c: char) -> char {
    if is_upper(c) { ((c as u32) + 32) as char } else { c }
}

/// ASCII upper-casing of one character.
pub open spec fn upper(c: char) -> char {
    if is_lower(c) { ((c as u32) - 32) as char } else { c }
}

pub fn lower_char(c: char) -> (r: char)
    ensures
        r == lower(c),
{
    if 'A' <= c && c <= 'Z' {
        (((c as u32) + 32) as u8) as char
    } else {
        c
    }
}

pub fn upper_char(c: char) -> (r: char)
    ensures
        r == upper(c),
{
    if 'a' <= c && c <= 'z' {
        (((c as u32) - 32) as u8) as char
    } else {
        c
    }
}

pub fn is_upper_char(c: char) -> (r: bool)
    ensures
        r == is_upper(c),
{
    'A' <= c && c <= 'Z'
}

pub fn is_alnum_char(c: char) -> (r: bool)
    ensures
        r == is_alnum(c),
{
    ('A' <= c && c <= 'Z') || ('a' <= c && c <= 'z') || ('0' <= c && c <= '9')
}

pub open spec fn ends_with_sep(s: Seq<char>) -> bool {
    s.len() > 0 && s.last() == '_'
}

/// What the snake-case scan has produced after a prefix of the input: the
/// output so far, and whether the previous input character was a lower-case
/// letter or digit, or an upper-case letter.
pub struct SnakeScan {
    pub out: Seq<char>,
    pub prev_lower_or_digit: bool,
    pub prev_upper: bool,
}

/// One step of the snake-case scan. An upper-case letter is lowered and gets a
/// separator before it when it follows a lower-case letter, a digit, or
/// another upper-case letter; any other non-alphanumeric character becomes a
/// single separator.
pub open spec fn snake_step(st: SnakeScan, c: char) -> SnakeScan {
    if is_upper(c) {
        let sep = st.prev_lower_or_digit || (st.prev_upper && !ends_with_sep(st.out));
        let out = if sep { st.out.push('_') } else { st.out };
        SnakeScan { out: out.push(lower(c)), prev_lower_or_digit: false, prev_upper: true }
    } else if is_alnum(c) {
        SnakeScan { out: st.out.push(c), prev_lower_or_digit: true, prev_upper: false }
    } else {
        let out = if ends_with_sep(st.out) { st.out } else { st.out.push('_') };
        SnakeScan { out, prev_lower_or_digit: false, prev_upper: false }
    }
}

pub open spec fn snake_scan(s: Seq<char>) -> SnakeScan
    decreases s.len(),
{
    if s.len() == 0 {
        SnakeScan { out: Seq::empty(), prev_lower_or_digit: false, prev_upper: false }
    } else {
        snake_step(snake_scan(s.drop_last()), s.last())
    }
}

/// `s` without its trailing separators.
pub open spec fn trim_end_sep(s: Seq<char>) -> Seq<char>
    decreases s.len(),
{
    if ends_with_sep(s) { trim_end_sep(s.drop_last()) } else { s }
}

/// `s` without its leading separators.
pub open spec fn trim_start_sep(s: Seq<char>) -> Seq<char>
    decreases s.len(),
{
    if s.len() > 0 && s[0] == '_' { trim_start_sep(s.drop_first()) } else { s }
}

/// The snake_case form of a PascalCase or camelCase name.
pub open spec fn snake_case(s: Seq<char>) -> Seq<char> {
    trim_start_sep(trim_end_sep(snake_scan(s).out))
}

proof fn lemma_trim_start_skip(s: Seq<char>, k: int)
    requires
        0 <= k <= s.len(),
        forall|j: int| 0 <= j < k ==> s[j] == '_',
    ensures
        trim_start_sep(s) == trim_start_sep(s.subrange(k, s.len() as int)),
    decreases k,
{
    if k > 0 {
        assert(s.drop_first() =~= s.subrange(1, s.len() as int));
        lemma_trim_start_skip(s.drop_first(), k - 1);
        assert(s.drop_first().subrange(k - 1, s.drop_first().len() as int) =~= s.subrange(k, s.len() as int));
    } else {
        assert(s.subrange(0, s.len() as int) =~= s);
    }
}

fn snake_chars(s: &Vec<char>) -> (r: Vec<char>)
    ensures
        r@ == snake_case(s@),
{
    let mut out: Vec<char> = Vec::new();
    let mut prev_lower_or_digit = false;
    let mut prev_upper = false;
    let mut i: usize = 0;
    while i < s.len()
        invariant
            i <= s.len(),
            snake_scan(s@.take(i as int)) == (SnakeScan { out: out@, prev_lower_or_digit, prev_upper }),
        decreases s.len() - i,
    {
        let c = s[i];
        proof {
            assert(s@.take(i + 1).drop_last() =~= s@.take(i as int));
        }
        let ends_sep = out.len() > 0 && out[out.len() - 1] == '_';
        if is_upper_char(c) {
            if prev_lower_or_digit || (prev_upper && !ends_sep) {
                out.push('_');
            }
            out.push(lower_char(c));
            prev_lower_or_digit = false;
            prev_upper = true;
        } else if is_alnum_char(c) {
            out.push(c);
            prev_lower_or_digit = true;
            prev_upper = false;
        } else {
            if !ends_sep {
                out.push('_');
            }
            prev_lower_or_digit = false;
            prev_upper = false;
        }
        i += 1;
    }
    assert(s@.take(s.len() as int) =~= s@);
    while out.len() > 0 && out[out.len() - 1] == '_'
        invariant
            trim_end_sep(out@) == trim_end_sep(snake_scan(s@).out),
        decreases out.len(),
    {
        out.pop();
    }
    let mut k: usize = 0;
    while k < out.len() && out[k] == '_'
        invariant
            k <= out.len(),
            forall|j: int| 0 <= j < k ==> out@[j] == '_',
        decreases out.len() - k,
    {
        k += 1;
    }
    proof {
        lemma_trim_start_skip(out@, k as int);
    }
    let mut r: Vec<char> = Vec::new();
    let mut j: usize = k;
    while j < out.len()
        invariant
            k <= j <= out.len(),
            r@ == out@.subrange(k as int, j as int),
        decreases out.len() - j,
    {
        r.push(out[j]);
        assert(out@.subrange(k as int, j + 1) =~= out@.subrange(k as int, j as int).push(out@[j as int]));
        j += 1;
    }
    assert(!(r@.len() > 0 && r@[0] == '_'));
    r
}

/// Minimal PascalCase/camelCase to snake_case.
pub fn to_snake_case(name: &str) -> (r: String)
    ensures
        r@ == snake_case(name@),
{
    let cs = chars_of(name);
    let out = snake_chars(&cs);
    string_of(&out)
}

/// What the PascalCase scan has produced after a prefix of the input.
pub struct PascalScan {
    pub out: Seq<char>,
    pub new_word: bool,
}

/// One step of the PascalCase scan: alphanumeric characters are kept, the
/// first of each run upper-cased; any other character ends a word and is
/// dropped.
pub open spec fn pascal_step(st: PascalScan, c: char) -> PascalScan {
    if is_alnum(c) {
        if st.new_word {
            PascalScan { out: st.out.push(upper(c)), new_word: false }
        } else {
            PascalScan { out: st.out.push(c), new_word: false }
        }
    } else {
        PascalScan { out: st.out, new_word: true }
    }
}

pub open spec fn pascal_scan(s: Seq<char>) -> PascalScan
    decreases s.len(),
{
    if s.len() == 0 {
        PascalScan { out: Seq::empty(), new_word: true }
    } else {
        pascal_step(pascal_scan(s.drop_last()), s.last())
    }
}

/// The PascalCase form of a snake_case name.
pub open spec fn pascal_case(s: Seq<char>) -> Seq<char> {
    pascal_scan(s).out
}

/// Minimal snake_case to PascalCase.
pub fn to_pascal_case(input: &str) -> (r: String)
    ensures
        r@ == pascal_case(input@),
{
    let s = chars_of(input);
    let mut out: Vec<char> = Vec::new();
    let mut new_word = true;
    let mut i: usize = 0;
    while i < s.len()
        invariant
            i <= s.len(),
            s@ == input@,
            pascal_scan(s@.take(i as int)) == (PascalScan { out: out@, new_word }),
        decreases s.len() - i,
    {
        let c = s[i];
        proof {
            assert(s@.take(i + 1).drop_last() =~= s@.take(i as int));
        }
        if is_alnum_char(c) {
            if new_word {
                out.push(upper_char(c));
                new_word = false;
            } else {
                out.push(c);
            }
        } else {
            new_word = true;
        }
        i += 1;
    }
    assert(s@.take(s.len() as int) =~= s@);
    string_of(&out)
}

pub open spec fn is_vowel(c: char) -> bool {
    c == 'a' || c == 'e' || c == 'i' || c == 'o' || c == 'u'
}

/// The name ends, ignoring case, in a `y` that does not follow a vowel (a
/// one-letter `y` counts).
pub open spec fn ends_consonant_y(s: Seq<char>) -> bool {
    let n = s.len();
    n > 0 && lower(s[n - 1]) == 'y' && !is_vowel(lower(s[if n >= 2 { n - 2 } else { 0 }]))
}

/// The name ends, ignoring case, in `s`, `x`, `z`, `ch` or `sh`.
pub open spec fn ends_sibilant(s: Seq<char>) -> bool {
    let n = s.len();
    n > 0 && {
        let last = lower(s[n - 1]);
        last == 's' || last == 'x' || last == 'z' || (n >= 2 && last == 'h' && (lower(s[n - 2])
            == 'c' || lower(s[n - 2]) == 's'))
    }
}

/// The heuristic plural: consonant + `y` becomes `ies`, a sibilant ending
/// takes `es`, anything else takes `s`.
pub open spec fn plural(s: Seq<char>) -> Seq<char> {
    if ends_consonant_y(s) {
        s.drop_last() + seq!['i', 'e', 's']
    } else if ends_sibilant(s) {
        s + seq!['e', 's']
    } else {
        s.push('s')
    }
}

fn is_vowel_char(c: char) -> (r: bool)
    ensures
        r == is_vowel(c),
{
    c == 'a' || c == 'e' || c == 'i' || c == 'o' || c == 'u'
}

fn plural_chars(s: &Vec<char>) -> (r: Vec<char>)
    ensures
        r@ == plural(s@),
{
    let n = s.len();
    let mut r: Vec<char> = s.clone();
    assert(r@ == s@);
    if n > 0 && lower_char(s[n - 1]) == 'y' && !is_vowel_char(lower_char(s[if n >= 2 { n - 2 } else { 0 }])) {
        r.pop();
        r.push('i');
        r.push('e');
        r.push('s');
        assert(r@ =~= s@.drop_last() + seq!['i', 'e', 's']);
    } else if n > 0 && (lower_char(s[n - 1]) == 's' || lower_char(s[n - 1]) == 'x' || lower_char(s[n - 1]) == 'z'
        || (n >= 2 && lower_char(s[n - 1]) == 'h' && (lower_char(s[n - 2]) == 'c' || lower_char(s[n - 2]) == 's'))) {
        r.push('e');
        r.push('s');
        assert(r@ =~= s@ + seq!['e', 's']);
    } else {
        r.push('s');
    }
    r
}

/// Very small heuristic pluralizer.
pub fn pluralize_pascal(s: &str) -> (r: String)
    ensures
        r@ == plural(s@),
{
    let cs = chars_of(s);
    let out = plural_chars(&cs);
    string_of(&out)
}

/// The base name of a child under its parent: the rest of the child's name
/// when it begins with the parent's name and is longer, else the whole name.
pub open spec fn stripped(parent: Seq<char>, child: Seq<char>) -> Seq<char> {
    if parent.len() < child.len() && child.take(parent.len() as int) == parent {
        child.skip(parent.len() as int)
    } else {
        child
    }
}

fn stripped_chars(parent: &Vec<char>, child: &Vec<char>) -> (r: Vec<char>)
    ensures
        r@ == stripped(parent@, child@),
{
    let p = parent.len();
    let c = child.len();
    if p < c {
        let mut i: usize = 0;
        while i < p
            invariant
                p == parent@.len(),
                p < c == child@.len(),
                i <= p,
                child@.take(i as int) == parent@.take(i as int),
            decreases p - i,
        {
            if child[i] != parent[i] {
                assert(child@.take(p as int)[i as int] != parent@[i as int]);
                return child.clone();
            }
            assert(child@.take(i + 1) =~= child@.take(i as int).push(child@[i as int]));
            assert(parent@.take(i + 1) =~= parent@.take(i as int).push(parent@[i as int]));
            i += 1;
        }
        assert(parent@.take(p as int) =~= parent@);
        let mut r: Vec<char> = Vec::new();
        let mut j: usize = p;
        while j < c
            invariant
                p <= j <= c == child@.len(),
                r@ == child@.subrange(p as int, j as int),
            decreases c - j,
        {
            r.push(child[j]);
            assert(child@.subrange(p as int, j + 1) =~= child@.subrange(p as int, j as int).push(child@[j as int]));
            j += 1;
        }
        r
    } else {
        child.clone()
    }
}

/// The base name of `child` when owned by `parent` (see [`stripped`]).
pub fn stripped_pascal(parent: &str, child: &str) -> (r: String)
    ensures
        r@ == stripped(parent@, child@),
{
    let p = chars_of(parent);
    let c = chars_of(child);
    let out = stripped_chars(&p, &c);
    string_of(&out)
}

/// `<prefix>_<snake_case of name>`, the shape of manager accessors such as
/// `manage_<object>`.
pub open spec fn prefixed_snake(prefix: Seq<char>, name: Seq<char>) -> Seq<char> {
    prefix + seq!['_'] + snake_case(name)
}

/// `<prefix>_<snake_case of name>`.
pub fn method_ident_for(prefix: &str, name: &str) -> (r: String)
    ensures
        r@ == prefixed_snake(prefix@, name@),
{
    let mut out = chars_of(prefix);
    out.push('_');
    let snake = to_snake_case(name);
    let tail = chars_of(snake.as_str());
    extend_chars(&mut out, &tail);
    let r = string_of(&out);
    assert(r@ =~= prefixed_snake(prefix@, name@));
    r
}

/// `<prefix>_<snake_case of name><suffix>`, the shape of handler names such
/// as `manage_<object>_handler`.
pub fn method_ident_for_with_suffix(prefix: &str, name: &str, suffix: &str) -> (r: String)
    ensures
        r@ == prefixed_snake(prefix@, name@) + suffix@,
{
    let base = method_ident_for(prefix, name);
    let mut out = chars_of(base.as_str());
    let tail = chars_of(suffix);
    extend_chars(&mut out, &tail);
    string_of(&out)
}

/// `name` followed by `suffix`, the shape of `<Object>Crud` and
/// `<Object>Data`.
pub fn suffixed_ident(name: &str, suffix: &str) -> (r: String)
    ensures
        r@ == name@ + suffix@,
{
    let mut out = chars_of(name);
    let tail = chars_of(suffix);
    extend_chars(&mut out, &tail);
    string_of(&out)
}

} // verus!
