//! Character-level helpers on strings, each proved against a statement of
//! what it computes.

use vstd::prelude::*;
use vstd::string::*;

verus! {

/// Appends one character (`String::push`).
#[verifier::external_body]
pub(crate) fn push_char(s: &mut String, c: char)
    ensures
        final(s)@ == old(s)@.push(c),
{
    s.push(c);
}

/// The characters of a string, in order (`str::chars` collected).
#[verifier::external_body]
pub(crate) fn chars_of(s: &str) -> (r: Vec<char>)
    ensures
        r@ == s@,
{
    s.chars().collect()
}

/// Appends a string slice.
pub fn push_str(s: &mut String, t: &str)
    ensures
        final(s)@ == old(s)@ + t@,
{
    s.append(t);
}

/// A fresh string holding the given characters.
pub fn string_of(t: &str) -> (r: String)
    ensures
        r@ == t@,
{
    t.to_owned()
}

/// `true` exactly when the two strings hold the same characters.
pub fn str_eq(a: &str, b: &str) -> (r: bool)
    ensures
        r == (a@ == b@),
{
    let x = a.to_owned();
    let y = b.to_owned();
    x == y
}

/// The Unicode `White_Space` property, which `char::is_whitespace` and
/// `str::trim` test.
pub open spec fn is_white(c: char) -> bool {
    let u = c as u32;
    (0x09 <= u && u <= 0x0d) || u == 0x20 || u == 0x85 || u == 0xa0 || u == 0x1680 || (0x2000 <= u
        && u <= 0x200a) || u == 0x2028 || u == 0x2029 || u == 0x202f || u == 0x205f || u == 0x3000
}

/// `true` when every character is whitespace, so that trimming leaves
/// nothing.
pub open spec fn blank(s: Seq<char>) -> bool {
    forall|i: int| 0 <= i < s.len() ==> is_white(#[trigger] s[i])
}

pub fn is_whitespace(c: char) -> (r: bool)
    ensures
        r == is_white(c),
{
    let u = c as u32;
    (0x09 <= u && u <= 0x0d) || u == 0x20 || u == 0x85 || u == 0xa0 || u == 0x1680 || (0x2000 <= u
        && u <= 0x200a) || u == 0x2028 || u == 0x2029 || u == 0x202f || u == 0x205f || u == 0x3000
}

/// `s.trim().is_empty()`.
pub fn is_blank(s: &str) -> (r: bool)
    ensures
        r == blank(s@),
{
    let cs = chars_of(s);
    let mut i: usize = 0;
    while i < cs.len()
        invariant
            cs@ == s@,
            i <= cs@.len(),
            forall|j: int| 0 <= j < i ==> is_white(#[trigger] s@[j]),
        decreases cs@.len() - i,
    {
        if !is_whitespace(cs[i]) {
            return false;
        }
        i = i + 1;
    }
    true
}

pub open spec fn has_prefix(s: Seq<char>, p: Seq<char>) -> bool {
    p.len() <= s.len() && s.take(p.len() as int) == p
}

pub open spec fn has_suffix(s: Seq<char>, p: Seq<char>) -> bool {
    p.len() <= s.len() && s.skip(s.len() - p.len()) == p
}

/// `true` when `cs[at..]` begins with `p`.
fn matches_at(cs: &Vec<char>, at: usize, p: &Vec<char>) -> (r: bool)
    requires
        at <= cs@.len(),
    ensures
        r == has_prefix(cs@.skip(at as int), p@),
{
    if p.len() > cs.len() - at {
        return false;
    }
    let mut j: usize = 0;
    while j < p.len()
        invariant
            at <= cs@.len() <= usize::MAX,
            at + p@.len() <= cs@.len(),
            j <= p@.len(),
            forall|k: int| 0 <= k < j ==> cs@[at + k] == p@[k],
        decreases p@.len() - j,
    {
        let k = at + j;
        if cs[k] != p[j] {
            assert(cs@.skip(at as int).take(p@.len() as int)[j as int] != p@[j as int]);
            return false;
        }
        j = j + 1;
    }
    assert(cs@.skip(at as int).take(p@.len() as int) =~= p@);
    true
}

/// `str::starts_with` for a string pattern.
pub fn starts_with(s: &str, p: &str) -> (r: bool)
    ensures
        r == has_prefix(s@, p@),
{
    let cs = chars_of(s);
    let ps = chars_of(p);
    assert(cs@.skip(0) =~= cs@);
    matches_at(&cs, 0, &ps)
}

/// `str::ends_with` for a string pattern.
pub fn ends_with(s: &str, p: &str) -> (r: bool)
    ensures
        r == has_suffix(s@, p@),
{
    let cs = chars_of(s);
    let ps = chars_of(p);
    if ps.len() > cs.len() {
        return false;
    }
    let at = cs.len() - ps.len();
    let r = matches_at(&cs, at, &ps);
    assert(cs@.skip(at as int).take(ps@.len() as int) =~= cs@.skip(at as int));
    r
}

/// The character of a decimal digit.
pub open spec fn digit_char(d: int) -> char {
    (48 + d) as char
}

/// The decimal digits of `n`, most significant first, as `to_string` writes
/// them.
pub open spec fn decimal(n: nat) -> Seq<char>
    decreases n,
{
    if n < 10 {
        seq![digit_char(n as int)]
    } else {
        decimal(n / 10).push(digit_char((n % 10) as int))
    }
}

fn digit(d: u64) -> (c: char)
    requires
        d < 10,
    ensures
        c == digit_char(d as int),
{
    ((48 + d) as u8) as char
}

/// Appends the decimal digits of `n`.
pub fn push_decimal(s: &mut String, n: u64)
    ensures
        final(s)@ == old(s)@ + decimal(n as nat),
    decreases n,
{
    if n >= 10 {
        push_decimal(s, n / 10);
    }
    push_char(s, digit(n % 10));
    assert(final(s)@ =~= old(s)@ + decimal(n as nat));
}

/// The decimal digits of `n` (`n.to_string()`).
pub fn decimal_string(n: u64) -> (r: String)
    ensures
        r@ == decimal(n as nat),
{
    let mut s = String::new();
    push_decimal(&mut s, n);
    assert(s@ =~= decimal(n as nat));
    s
}

pub open spec fn is_digit(c: char) -> bool {
    '0' <= c && c <= '9'
}

pub open spec fn all_digits(s: Seq<char>) -> bool {
    forall|i: int| 0 <= i < s.len() ==> is_digit(#[trigger] s[i])
}

/// The number that a run of decimal digits spells.
pub open spec fn digits_value(s: Seq<char>) -> int
    decreases s.len(),
{
    if s.len() == 0 {
        0
    } else {
        digits_value(s.drop_last()) * 10 + (s.last() as int - 48)
    }
}

/// What `str::parse::<i64>` accepts: an optional `+` or `-`, then one or
/// more ASCII digits, spelling a number in range.
pub open spec fn parse_i64_spec(s: Seq<char>) -> Option<int> {
    if s.len() == 0 {
        None
    } else {
        let neg = s[0] == '-';
        let body = if s[0] == '-' || s[0] == '+' {
            s.drop_first()
        } else {
            s
        };
        let v = if neg {
            -digits_value(body)
        } else {
            digits_value(body)
        };
        if body.len() == 0 || !all_digits(body) || v < i64::MIN || v > i64::MAX {
            None
        } else {
            Some(v)
        }
    }
}

proof fn lemma_digits_value_nonneg(s: Seq<char>)
    requires
        all_digits(s),
    ensures
        digits_value(s) >= 0,
    decreases s.len(),
{
    if s.len() > 0 {
        lemma_digits_value_nonneg(s.drop_last());
    }
}

proof fn lemma_digits_value_mono(s: Seq<char>, i: int)
    requires
        all_digits(s),
        0 <= i <= s.len(),
    ensures
        digits_value(s.take(i)) <= digits_value(s),
    decreases s.len(),
{
    if i < s.len() {
        lemma_digits_value_mono(s.drop_last(), i);
        assert(s.drop_last().take(i) =~= s.take(i));
        lemma_digits_value_nonneg(s.drop_last());
    } else {
        assert(s.take(i) =~= s);
    }
}

/// `s.parse::<i64>().ok()`.
pub fn parse_i64(s: &str) -> (r: Option<i64>)
    ensures
        match r {
            Some(v) => parse_i64_spec(s@) == Some(v as int),
            None => parse_i64_spec(s@) is None,
        },
{
    let cs = chars_of(s);
    if cs.len() == 0 {
        return None;
    }
    let neg = cs[0] == '-';
    let start: usize = if cs[0] == '-' || cs[0] == '+' {
        1
    } else {
        0
    };
    let ghost body = if s@[0] == '-' || s@[0] == '+' {
        s@.drop_first()
    } else {
        s@
    };
    assert(body =~= cs@.skip(start as int));
    if start == cs.len() {
        return None;
    }
    let mut acc: u64 = 0;
    let mut i: usize = start;
    while i < cs.len()
        invariant
            cs@ == s@,
            s@.len() > 0,
            neg == (s@[0] == '-'),
            body == (if s@[0] == '-' || s@[0] == '+' {
                s@.drop_first()
            } else {
                s@
            }),
            start <= i <= cs@.len(),
            body =~= cs@.skip(start as int),
            all_digits(body.take(i - start)),
            acc as int == digits_value(body.take(i - start)),
            acc <= 0x8000_0000_0000_0000,
        decreases cs@.len() - i,
    {
        let c = cs[i];
        if c < '0' || c > '9' {
            assert(body[i - start] == c);
            assert(!is_digit(body[i - start]));
            assert(!all_digits(body));
            return None;
        }
        let d = (c as u32 - 48) as u64;
        let ghost prev = body.take(i - start);
        assert(body.take(i + 1 - start).drop_last() =~= prev);
        assert(body.take(i + 1 - start).last() == c);
        if acc > (0x8000_0000_0000_0000u64 - d) / 10 {
            // The digits so far already spell more than any i64 can hold.
            assert(acc * 10 + d > 0x8000_0000_0000_0000) by (nonlinear_arith)
                requires
                    acc > (0x8000_0000_0000_0000u64 - d) / 10,
                    d < 10,
            ;
            proof {
                if all_digits(body) {
                    lemma_digits_value_mono(body, i + 1 - start);
                }
            }
            return None;
        }
        acc = acc * 10 + d;
        i = i + 1;
        assert(all_digits(body.take(i - start)));
    }
    assert(body.take(i - start) =~= body);
    if neg {
        if acc == 0x8000_0000_0000_0000 {
            Some(i64::MIN)
        } else {
            Some(-(acc as i64))
        }
    } else {
        if acc > 0x7fff_ffff_ffff_ffff {
            None
        } else {
            Some(acc as i64)
        }
    }
}

/// `s` with every non-overlapping occurrence of `p` (scanning from the left)
/// replaced by `t`, as `str::replace` does for a non-empty pattern.
pub open spec fn replace_spec(s: Seq<char>, p: Seq<char>, t: Seq<char>) -> Seq<char>
    decreases s.len(),
{
    if p.len() == 0 || s.len() == 0 {
        s
    } else if has_prefix(s, p) {
        t + replace_spec(s.skip(p.len() as int), p, t)
    } else {
        seq![s[0]] + replace_spec(s.drop_first(), p, t)
    }
}

proof fn lemma_replace_step(s: Seq<char>, p: Seq<char>, t: Seq<char>, i: int)
    requires
        p.len() > 0,
        0 <= i < s.len(),
    ensures
        replace_spec(s.skip(i), p, t) == if has_prefix(s.skip(i), p) {
            t + replace_spec(s.skip(i + p.len()), p, t)
        } else {
            seq![s[i]] + replace_spec(s.skip(i + 1), p, t)
        },
{
    let r = s.skip(i);
    if has_prefix(r, p) {
        assert(r.skip(p.len() as int) =~= s.skip(i + p.len()));
    } else {
        assert(r.drop_first() =~= s.skip(i + 1));
    }
}

/// `s.replace(p, t)` for a non-empty pattern `p`.
pub fn replace(s: &str, p: &str, t: &str) -> (r: String)
    requires
        p@.len() > 0,
    ensures
        r@ == replace_spec(s@, p@, t@),
{
    let cs = chars_of(s);
    let ps = chars_of(p);
    let mut out = String::new();
    let mut i: usize = 0;
    assert(cs@.skip(0) =~= cs@);
    while i < cs.len()
        invariant
            cs@ == s@,
            ps@ == p@,
            p@.len() > 0,
            i <= cs@.len(),
            out@ + replace_spec(cs@.skip(i as int), p@, t@) == replace_spec(s@, p@, t@),
        decreases cs@.len() - i,
    {
        proof {
            lemma_replace_step(cs@, p@, t@, i as int);
        }
        if matches_at(&cs, i, &ps) {
            push_str(&mut out, t);
            i = i + ps.len();
        } else {
            push_char(&mut out, cs[i]);
            i = i + 1;
        }
    }
    assert(cs@.skip(i as int) =~= Seq::<char>::empty());
    out
}

/// A character with ASCII upper-case letters made lower-case, as
/// `to_ascii_lowercase` maps it.
pub open spec fn ascii_lower(c: char) -> char {
    if 'A' <= c && c <= 'Z' {
        ((c as u32) + 32) as char
    } else {
        c
    }
}

pub open spec fn ascii_lower_all(s: Seq<char>) -> Seq<char> {
    s.map_values(|c: char| ascii_lower(c))
}

/// `s.to_ascii_lowercase()`.
pub fn ascii_lowercase(s: &str) -> (r: String)
    ensures
        r@ == ascii_lower_all(s@),
{
    let cs = chars_of(s);
    let mut out = String::new();
    let mut i: usize = 0;
    while i < cs.len()
        invariant
            cs@ == s@,
            i <= cs@.len(),
            out@ == ascii_lower_all(s@.take(i as int)),
        decreases cs@.len() - i,
    {
        let c = cs[i];
        let l = if 'A' <= c && c <= 'Z' {
            ((c as u32 + 32) as u8) as char
        } else {
            c
        };
        push_char(&mut out, l);
        i = i + 1;
        assert(out@ =~= ascii_lower_all(s@.take(i as int)));
    }
    assert(s@.take(i as int) =~= s@);
    out
}

} // verus!
