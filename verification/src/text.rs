//! Character-level text utilities: ASCII case folding, whitespace trimming,
//! line splitting and token extraction. The catalog listing that the host
//! reports is parsed with these, so they carry exact specifications.

use vstd::prelude::*;

verus! {

/// ASCII lower-casing of a character code: upper-case letters move down by
/// 32, everything else is untouched.
pub open spec fn lower_code(n: u32) -> u32 {
    if 65 <= n <= 90 {
        (n + 32) as u32
    } else {
        n
    }
}

/// Two characters are equal up to ASCII case.
pub open spec fn chars_ci_eq(a: char, b: char) -> bool {
    lower_code(a as u32) == lower_code(b as u32)
}

/// Two character sequences are equal up to ASCII case.
pub open spec fn seq_ci_eq(a: Seq<char>, b: Seq<char>) -> bool {
    a.len() == b.len() && forall|i: int| 0 <= i < a.len() ==> chars_ci_eq(a[i], b[i])
}

/// The whitespace characters recognized when trimming and tokenizing:
/// the Unicode White_Space set, as standard library trimming and
/// whitespace splitting recognize it.
pub open spec fn is_space_char(c: char) -> bool {
    ||| c == ' '
    ||| c == '\t'
    ||| c == '\r'
    ||| c == '\n'
    ||| c == '\u{000B}'
    ||| c == '\u{000C}'
    ||| c == '\u{0085}'
    ||| c == '\u{00A0}'
    ||| c == '\u{1680}'
    ||| (0x2000 <= c as u32 && c as u32 <= 0x200A)
    ||| c == '\u{2028}'
    ||| c == '\u{2029}'
    ||| c == '\u{202F}'
    ||| c == '\u{205F}'
    ||| c == '\u{3000}'
}

pub fn char_ci_eq(a: char, b: char) -> (r: bool)
    ensures
        r == chars_ci_eq(a, b),
{
    let x = a as u32;
    let y = b as u32;
    let lx: u32 = if 65 <= x && x <= 90 {
        x + 32
    } else {
        x
    };
    let ly: u32 = if 65 <= y && y <= 90 {
        y + 32
    } else {
        y
    };
    lx == ly
}

pub fn is_space(c: char) -> (r: bool)
    ensures
        r == is_space_char(c),
{
    let n = c as u32;
    c == ' ' || c == '\t' || c == '\r' || c == '\n' || c == '\u{000B}' || c == '\u{000C}'
        || c == '\u{0085}' || c == '\u{00A0}' || c == '\u{1680}' || (0x2000 <= n && n <= 0x200A)
        || c == '\u{2028}' || c == '\u{2029}' || c == '\u{202F}' || c == '\u{205F}'
        || c == '\u{3000}'
}

/// Index of the first newline in `s`, or `s.len()` if there is none.
pub open spec fn first_nl(s: Seq<char>) -> nat
    decreases s.len(),
{
    if s.len() == 0 {
        0
    } else if s[0] == '\n' {
        0
    } else {
        1 + first_nl(s.drop_first())
    }
}

pub proof fn lemma_first_nl_bounds(s: Seq<char>)
    ensures
        first_nl(s) <= s.len(),
        first_nl(s) < s.len() ==> s[first_nl(s) as int] == '\n',
        forall|i: int| 0 <= i < first_nl(s) ==> s[i] != '\n',
    decreases s.len(),
{
    if s.len() > 0 && s[0] != '\n' {
        lemma_first_nl_bounds(s.drop_first());
        assert forall|i: int| 0 <= i < first_nl(s) implies s[i] != '\n' by {
            if i > 0 {
                assert(s.drop_first()[i - 1] != '\n');
            }
        }
    }
}

/// A line with a trailing carriage return loses it; others are untouched.
pub open spec fn strip_cr(s: Seq<char>) -> Seq<char> {
    if s.len() > 0 && s.last() == '\r' {
        s.drop_last()
    } else {
        s
    }
}

/// The lines of a text, split on newlines, each stripped of a trailing
/// carriage return; a trailing newline yields no final empty line.
pub open spec fn split_lines_spec(s: Seq<char>) -> Seq<Seq<char>>
    decreases s.len(),
    via split_lines_spec_decreases
{
    if s.len() == 0 {
        Seq::empty()
    } else {
        let k = first_nl(s) as int;
        if k == s.len() {
            seq![strip_cr(s)]
        } else {
            seq![strip_cr(s.take(k))] + split_lines_spec(s.skip(k + 1))
        }
    }
}

#[via_fn]
proof fn split_lines_spec_decreases(s: Seq<char>) {
    lemma_first_nl_bounds(s);
}

/// What is left of `s` after dropping leading whitespace.
pub open spec fn trim_start_spec(s: Seq<char>) -> Seq<char>
    decreases s.len(),
{
    if s.len() > 0 && is_space_char(s[0]) {
        trim_start_spec(s.drop_first())
    } else {
        s
    }
}

/// What is left of `s` after dropping trailing whitespace.
pub open spec fn trim_end_spec(s: Seq<char>) -> Seq<char>
    decreases s.len(),
{
    if s.len() > 0 && is_space_char(s.last()) {
        trim_end_spec(s.drop_last())
    } else {
        s
    }
}

/// `s` without leading and trailing whitespace.
pub open spec fn trim_spec(s: Seq<char>) -> Seq<char> {
    trim_end_spec(trim_start_spec(s))
}

/// The leading run of non-whitespace characters of `s`.
pub open spec fn first_token_spec(s: Seq<char>) -> Seq<char>
    decreases s.len(),
{
    if s.len() == 0 || is_space_char(s[0]) {
        Seq::empty()
    } else {
        seq![s[0]] + first_token_spec(s.drop_first())
    }
}

/// `s` starts with the prefix `p`.
pub open spec fn starts_with_spec(s: Seq<char>, p: Seq<char>) -> bool {
    s.len() >= p.len() && s.take(p.len() as int) == p
}

/// Copy of `v[a..b]`.
pub fn copy_range(v: &Vec<char>, a: usize, b: usize) -> (r: Vec<char>)
    requires
        a <= b <= v@.len(),
    ensures
        r@ == v@.subrange(a as int, b as int),
{
    let mut r: Vec<char> = Vec::new();
    let mut i: usize = a;
    while i < b
        invariant
            a <= i <= b <= v@.len(),
            r@ == v@.subrange(a as int, i as int),
        decreases b - i,
    {
        r.push(v[i]);
        proof {
            assert(r@ =~= v@.subrange(a as int, i as int + 1));
        }
        i += 1;
    }
    r
}

fn find_nl(v: &Vec<char>, start: usize) -> (r: usize)
    requires
        start <= v@.len(),
    ensures
        start <= r <= v@.len(),
        r - start == first_nl(v@.skip(start as int)),
    decreases v@.len() - start,
{
    if start == v.len() {
        start
    } else if v[start] == '\n' {
        start
    } else {
        proof {
            assert(v@.skip(start as int).drop_first() =~= v@.skip(start as int + 1));
        }
        find_nl(v, start + 1)
    }
}

fn split_lines_from(v: &Vec<char>, start: usize) -> (lines: Vec<Vec<char>>)
    requires
        start <= v@.len(),
    ensures
        lines.deep_view() == split_lines_spec(v@.skip(start as int)),
    decreases v@.len() - start,
{
    let ghost s = v@.skip(start as int);
    if start == v.len() {
        let lines: Vec<Vec<char>> = Vec::new();
        proof {
            assert(lines.deep_view() =~~= split_lines_spec(s));
        }
        return lines;
    }
    let j = find_nl(v, start);
    let mut line = copy_range(v, start, j);
    proof {
        assert(line@ =~= s.take(j - start));
        assert(s.take(first_nl(s) as int) == line@);
    }
    if line.len() > 0 && line[line.len() - 1] == '\r' {
        line.pop();
    }
    proof {
        assert(line@ =~= strip_cr(s.take(first_nl(s) as int)));
    }
    if j == v.len() {
        let mut lines: Vec<Vec<char>> = Vec::new();
        proof {
            assert(first_nl(s) == s.len());
            assert(s.take(first_nl(s) as int) =~= s);
        }
        lines.push(line);
        proof {
            assert(lines.deep_view() =~~= split_lines_spec(s));
        }
        lines
    } else {
        let rest = split_lines_from(v, j + 1);
        let mut lines: Vec<Vec<char>> = Vec::new();
        lines.push(line);
        let mut rest = rest;
        let mut k: usize = 0;
        while k < rest.len()
            invariant
                0 <= k <= rest@.len(),
                lines@.len() == 1 + k,
                lines.deep_view()[0] == strip_cr(s.take(first_nl(s) as int)),
                forall|t: int| 0 <= t < k ==> lines.deep_view()[t + 1] == rest.deep_view()[t],
                rest.deep_view() == split_lines_spec(v@.skip(j + 1 as int)),
            decreases rest@.len() - k,
        {
            let entry = rest[k].clone();
            proof {
                assert(entry@ == rest.deep_view()[k as int]);
            }
            lines.push(entry);
            k += 1;
        }
        proof {
            assert(first_nl(s) < s.len());
            assert(v@.skip(j + 1 as int) =~= s.skip(first_nl(s) + 1 as int));
            assert(lines.deep_view() =~~= seq![strip_cr(s.take(first_nl(s) as int))]
                + split_lines_spec(s.skip(first_nl(s) + 1 as int)));
        }
        lines
    }
}

/// The lines of `v`, per [`split_lines_spec`].
pub fn split_lines(v: &Vec<char>) -> (lines: Vec<Vec<char>>)
    ensures
        lines.deep_view() == split_lines_spec(v@),
{
    let lines = split_lines_from(v, 0);
    proof {
        assert(v@.skip(0) =~= v@);
    }
    lines
}

fn trim_start_from(v: &Vec<char>, start: usize) -> (r: usize)
    requires
        start <= v@.len(),
    ensures
        start <= r <= v@.len(),
        trim_start_spec(v@.skip(start as int)) == v@.skip(r as int),
    decreases v@.len() - start,
{
    if start < v.len() && is_space(v[start]) {
        proof {
            assert(v@.skip(start as int).drop_first() =~= v@.skip(start as int + 1));
        }
        trim_start_from(v, start + 1)
    } else {
        start
    }
}

fn trim_end_to(v: &Vec<char>, a: usize, end: usize) -> (r: usize)
    requires
        a <= end <= v@.len(),
    ensures
        a <= r <= end,
        trim_end_spec(v@.subrange(a as int, end as int)) == v@.subrange(a as int, r as int),
    decreases end,
{
    if end > a && is_space(v[end - 1]) {
        proof {
            assert(v@.subrange(a as int, end as int).drop_last() =~= v@.subrange(
                a as int,
                end - 1 as int,
            ));
        }
        trim_end_to(v, a, end - 1)
    } else {
        end
    }
}

/// `v` without leading and trailing whitespace, per [`trim_spec`].
pub fn trim(v: &Vec<char>) -> (r: Vec<char>)
    ensures
        r@ == trim_spec(v@),
{
    let a = trim_start_from(v, 0);
    proof {
        assert(v@.skip(0) =~= v@);
    }
    let b = trim_end_to(v, a, v.len());
    proof {
        assert(v@.subrange(a as int, v@.len() as int) =~= v@.skip(a as int));
    }
    copy_range(v, a, b)
}

/// The leading non-whitespace token of `v`, per [`first_token_spec`].
pub fn first_token(v: &Vec<char>) -> (r: Vec<char>)
    ensures
        r@ == first_token_spec(v@),
{
    let mut i: usize = 0;
    while i < v.len() && !is_space(v[i])
        invariant
            0 <= i <= v@.len(),
            forall|t: int| 0 <= t < i ==> !is_space_char(v@[t]),
        decreases v@.len() - i,
    {
        i += 1;
    }
    let r = copy_range(v, 0, i);
    proof {
        lemma_first_token_take(v@, i as int);
    }
    r
}

proof fn lemma_first_token_take(s: Seq<char>, k: int)
    requires
        0 <= k <= s.len(),
        forall|t: int| 0 <= t < k ==> !is_space_char(s[t]),
        k < s.len() ==> is_space_char(s[k]),
    ensures
        first_token_spec(s) == s.take(k),
    decreases s.len(),
{
    if k == 0 {
        assert(s.take(0) =~= Seq::<char>::empty());
    } else {
        assert(!is_space_char(s[0]));
        lemma_first_token_take(s.drop_first(), k - 1);
        assert(s.drop_first().take(k - 1) =~= s.take(k).drop_first());
        assert(first_token_spec(s) == seq![s[0]] + s.drop_first().take(k - 1));
        assert(first_token_spec(s) =~= s.take(k));
    }
}

/// Whether `v` starts with the characters of `p`.
pub fn starts_with(v: &Vec<char>, p: &Vec<char>) -> (r: bool)
    ensures
        r == starts_with_spec(v@, p@),
{
    if v.len() < p.len() {
        return false;
    }
    let mut i: usize = 0;
    while i < p.len()
        invariant
            0 <= i <= p@.len() <= v@.len(),
            forall|t: int| 0 <= t < i ==> v@[t] == p@[t],
        decreases p@.len() - i,
    {
        if v[i] != p[i] {
            assert(v@.take(p@.len() as int)[i as int] != p@[i as int]);
            return false;
        }
        i += 1;
    }
    proof {
        assert(v@.take(p@.len() as int) =~= p@);
    }
    true
}

/// Whether two character vectors are equal up to ASCII case.
pub fn ci_eq(a: &Vec<char>, b: &Vec<char>) -> (r: bool)
    ensures
        r == seq_ci_eq(a@, b@),
{
    if a.len() != b.len() {
        return false;
    }
    let mut i: usize = 0;
    while i < a.len()
        invariant
            0 <= i <= a@.len() == b@.len(),
            forall|t: int| 0 <= t < i ==> chars_ci_eq(a@[t], b@[t]),
        decreases a@.len() - i,
    {
        if !char_ci_eq(a[i], b[i]) {
            return false;
        }
        i += 1;
    }
    true
}

/// Strict lexicographic order on character sequences, by code point —
/// the order UTF-8 byte comparison gives, so sorted keys iterate as a
/// byte-ordered map would iterate them.
pub open spec fn lex_lt(a: Seq<char>, b: Seq<char>) -> bool
    decreases a.len(),
{
    if b.len() == 0 {
        false
    } else if a.len() == 0 {
        true
    } else if a[0] != b[0] {
        (a[0] as u32) < (b[0] as u32)
    } else {
        lex_lt(a.drop_first(), b.drop_first())
    }
}

/// Distinct characters have distinct code points.
proof fn lemma_char_code_distinct(a: char, b: char)
    requires
        a != b,
    ensures
        (a as u32) != (b as u32),
{
}

/// Nothing is lexicographically below itself.
pub proof fn lemma_lex_irreflexive(a: Seq<char>)
    ensures
        !lex_lt(a, a),
    decreases a.len(),
{
    if a.len() > 0 {
        lemma_lex_irreflexive(a.drop_first());
    }
}

/// Lexicographic order is transitive.
pub proof fn lemma_lex_transitive(a: Seq<char>, b: Seq<char>, c: Seq<char>)
    requires
        lex_lt(a, b),
        lex_lt(b, c),
    ensures
        lex_lt(a, c),
    decreases a.len(),
{
    if a.len() > 0 && b.len() > 0 && c.len() > 0 {
        if a[0] == b[0] && b[0] == c[0] {
            lemma_lex_transitive(a.drop_first(), b.drop_first(), c.drop_first());
        } else {
            if a[0] != b[0] {
                lemma_char_code_distinct(a[0], b[0]);
            }
            if b[0] != c[0] {
                lemma_char_code_distinct(b[0], c[0]);
            }
            assert((a[0] as u32) < (c[0] as u32));
            assert(a[0] != c[0]);
        }
    }
}


/// Any two distinct sequences are lexicographically ordered one way.
pub proof fn lemma_lex_total(a: Seq<char>, b: Seq<char>)
    requires
        a != b,
    ensures
        lex_lt(a, b) || lex_lt(b, a),
    decreases a.len(),
{
    if a.len() == 0 || b.len() == 0 {
        if a.len() == 0 && b.len() == 0 {
            assert(a =~= b);
        }
    } else if a[0] == b[0] {
        assert(a.drop_first() != b.drop_first()) by {
            if a.drop_first() == b.drop_first() {
                assert(a =~= seq![a[0]] + a.drop_first());
                assert(b =~= seq![b[0]] + b.drop_first());
                assert(a == b);
            }
        }
        lemma_lex_total(a.drop_first(), b.drop_first());
    } else {
        lemma_char_code_distinct(a[0], b[0]);
    }
}


fn str_lt_from(a: &str, b: &str, i: usize) -> (r: bool)
    requires
        i <= a@.len(),
        i <= b@.len(),
    ensures
        r == lex_lt(a@.skip(i as int), b@.skip(i as int)),
    decreases a@.len() - i,
{
    let ghost sa = a@.skip(i as int);
    let ghost sb = b@.skip(i as int);
    if i == b.unicode_len() {
        false
    } else if i == a.unicode_len() {
        true
    } else {
        let ca = a.get_char(i);
        let cb = b.get_char(i);
        if (ca as u32) < (cb as u32) {
            true
        } else if ca == cb {
            proof {
                assert(sa.drop_first() =~= a@.skip(i as int + 1));
                assert(sb.drop_first() =~= b@.skip(i as int + 1));
            }
            str_lt_from(a, b, i + 1)
        } else {
            false
        }
    }
}

/// Whether `a` comes strictly before `b`, per [`lex_lt`].
pub fn str_lt(a: &str, b: &str) -> (r: bool)
    ensures
        r == lex_lt(a@, b@),
{
    let r = str_lt_from(a, b, 0);
    proof {
        assert(a@.skip(0) =~= a@);
        assert(b@.skip(0) =~= b@);
    }
    r
}

/// Whether two character vectors hold the same characters.
pub fn chars_eq(a: &Vec<char>, b: &Vec<char>) -> (r: bool)
    ensures
        r == (a@ == b@),
{
    if a.len() != b.len() {
        proof {
            assert(a@ != b@);
        }
        return false;
    }
    let mut i: usize = 0;
    while i < a.len()
        invariant
            0 <= i <= a@.len() == b@.len(),
            forall|t: int| 0 <= t < i ==> a@[t] == b@[t],
        decreases a@.len() - i,
    {
        if a[i] != b[i] {
            proof {
                assert(a@ != b@);
            }
            return false;
        }
        i += 1;
    }
    proof {
        assert(a@ =~= b@);
    }
    true
}

/// The characters of a string, as a vector usable by the parsers here.
pub fn str_chars(s: &str) -> (r: Vec<char>)
    ensures
        r@ == s@,
{
    let n = s.unicode_len();
    let mut r: Vec<char> = Vec::new();
    let mut i: usize = 0;
    while i < n
        invariant
            0 <= i <= n == s@.len(),
            r@ == s@.take(i as int),
        decreases n - i,
    {
        r.push(s.get_char(i));
        proof {
            assert(r@ =~= s@.take(i as int + 1));
        }
        i += 1;
    }
    proof {
        assert(s@.take(n as int) =~= s@);
    }
    r
}

} // verus!
