//! Text primitives on Unicode scalar sequences: ordering, whitespace and trimming.
//!
//! Strings are ordered as Rust orders `String`: lexicographically by their UTF-8
//! bytes, which is the same order as lexicographic comparison of code points.
use vstd::prelude::*;

verus! {

/// The characters of `s`, in order.
pub fn chars_of(s: &str) -> (out: Vec<char>)
    ensures
        out@ == s@,
{
    let mut out: Vec<char> = Vec::new();
    for c in it: s.chars()
        invariant
            out@.len() == it.index(),
            it.seq() == s@,
            forall|j: int| 0 <= j < out@.len() ==> out@[j] == it.seq()[j],
    {
        out.push(c);
    }
    out
}

/// Strict lexicographic order on code-point sequences.
pub open spec fn lex_lt(a: Seq<char>, b: Seq<char>) -> bool
    decreases a.len(),
{
    if a.len() == 0 {
        b.len() > 0
    } else if b.len() == 0 {
        false
    } else if a[0] == b[0] {
        lex_lt(a.drop_first(), b.drop_first())
    } else {
        (a[0] as u32) < (b[0] as u32)
    }
}

/// Non-strict lexicographic order.
pub open spec fn lex_le(a: Seq<char>, b: Seq<char>) -> bool {
    a == b || lex_lt(a, b)
}

pub proof fn lemma_lex_irreflexive(a: Seq<char>)
    ensures
        !lex_lt(a, a),
    decreases a.len(),
{
    if a.len() > 0 {
        lemma_lex_irreflexive(a.drop_first());
    }
}

pub proof fn lemma_lex_asymmetric(a: Seq<char>, b: Seq<char>)
    ensures
        !(lex_lt(a, b) && lex_lt(b, a)),
    decreases a.len(),
{
    if a.len() > 0 && b.len() > 0 && a[0] == b[0] {
        lemma_lex_asymmetric(a.drop_first(), b.drop_first());
    }
}

pub proof fn lemma_lex_transitive(a: Seq<char>, b: Seq<char>, c: Seq<char>)
    requires
        lex_lt(a, b),
        lex_lt(b, c),
    ensures
        lex_lt(a, c),
    decreases a.len(),
{
    if a.len() > 0 && b.len() > 0 && c.len() > 0 {
        if a[0] == b[0] && b[0] == c[0] {
            lemma_lex_transitive(a.drop_first(), b.drop_first(), c.drop_first());
        }
    }
}

pub proof fn lemma_lex_total(a: Seq<char>, b: Seq<char>)
    ensures
        a == b || lex_lt(a, b) || lex_lt(b, a),
    decreases a.len(),
{
    if a.len() > 0 && b.len() > 0 {
        if a[0] == b[0] {
            lemma_lex_total(a.drop_first(), b.drop_first());
            if a.drop_first() == b.drop_first() {
                assert(a =~= seq![a[0]] + a.drop_first());
                assert(b =~= seq![b[0]] + b.drop_first());
            }
        } else {
            vstd::utf8::char_u32_cast(a[0], a[0] as u32);
            vstd::utf8::char_u32_cast(b[0], b[0] as u32);
            assert((a[0] as u32) != (b[0] as u32));
        }
    } else if a.len() == 0 && b.len() == 0 {
        assert(a =~= b);
    }
}

proof fn lemma_lex_step(a: Seq<char>, b: Seq<char>, i: int)
    requires
        0 <= i < a.len(),
        i < b.len(),
        a[i] == b[i],
    ensures
        lex_lt(a.skip(i), b.skip(i)) == lex_lt(a.skip(i + 1), b.skip(i + 1)),
{
    assert(a.skip(i).drop_first() =~= a.skip(i + 1));
    assert(b.skip(i).drop_first() =~= b.skip(i + 1));
}

/// Three-way comparison in the order of `lex_lt`: -1, 0 or 1.
pub fn compare_text(a: &str, b: &str) -> (r: i8)
    ensures
        -1 <= r <= 1,
        r < 0 <==> lex_lt(a@, b@),
        r == 0 <==> a@ == b@,
        r > 0 <==> lex_lt(b@, a@),
{
    let x = chars_of(a);
    let y = chars_of(b);
    let mut i: usize = 0;
    proof {
        assert(a@.skip(0) =~= a@);
        assert(b@.skip(0) =~= b@);
        assert(x@.subrange(0, 0) =~= y@.subrange(0, 0));
    }
    while i < x.len() && i < y.len() && x[i] == y[i]
        invariant
            0 <= i <= x@.len(),
            i <= y@.len(),
            x@ == a@,
            y@ == b@,
            x@.subrange(0, i as int) == y@.subrange(0, i as int),
            lex_lt(a@, b@) == lex_lt(a@.skip(i as int), b@.skip(i as int)),
            lex_lt(b@, a@) == lex_lt(b@.skip(i as int), a@.skip(i as int)),
        decreases x@.len() - i,
    {
        proof {
            lemma_lex_step(a@, b@, i as int);
            lemma_lex_step(b@, a@, i as int);
            assert(x@.subrange(0, i + 1) =~= x@.subrange(0, i as int).push(x@[i as int]));
            assert(y@.subrange(0, i + 1) =~= y@.subrange(0, i as int).push(y@[i as int]));
        }
        i = i + 1;
    }
    proof {
        assert(a@.skip(0) =~= a@);
        assert(b@.skip(0) =~= b@);
    }
    if i == x.len() && i == y.len() {
        proof {
            assert(x@ =~= x@.subrange(0, i as int));
            assert(y@ =~= y@.subrange(0, i as int));
            lemma_lex_irreflexive(a@);
        }
        0
    } else if i == x.len() {
        proof {
            assert(a@.skip(i as int).len() == 0);
            if a@ == b@ {
                assert(false);
            }
        }
        -1
    } else if i == y.len() {
        proof {
            assert(b@.skip(i as int).len() == 0);
        }
        1
    } else {
        proof {
            assert(a@.skip(i as int)[0] == x@[i as int]);
            assert(b@.skip(i as int)[0] == y@[i as int]);
            if a@ == b@ {
                assert(x@[i as int] == y@[i as int]);
            }
        }
        let xi = x[i] as u32;
        let yi = y[i] as u32;
        proof {
            vstd::utf8::char_u32_cast(x@[i as int], xi);
            vstd::utf8::char_u32_cast(y@[i as int], yi);
            assert(x@[i as int] != y@[i as int]);
            assert(xi != yi);
        }
        if xi < yi {
            -1
        } else {
            1
        }
    }
}

/// Equality of two texts.
pub fn text_equals(a: &str, b: &str) -> (r: bool)
    ensures
        r == (a@ == b@),
{
    let x = chars_of(a);
    let y = chars_of(b);
    if x.len() != y.len() {
        return false;
    }
    let mut i: usize = 0;
    while i < x.len()
        invariant
            0 <= i <= x@.len(),
            x@.len() == y@.len(),
            x@ == a@,
            y@ == b@,
            forall|j: int| 0 <= j < i ==> x@[j] == y@[j],
        decreases x@.len() - i,
    {
        if x[i] != y[i] {
            return false;
        }
        i = i + 1;
    }
    assert(x@ =~= y@);
    true
}

/// The Unicode `White_Space` property, which `char::is_whitespace` tests.
pub open spec fn is_white_space(c: char) -> bool {
    let u = c as u32;

    ||| 0x09 <= u <= 0x0d
    ||| u == 0x20
    ||| u == 0x85
    ||| u == 0xa0
    ||| u == 0x1680
    ||| 0x2000 <= u <= 0x200a
    ||| u == 0x2028
    ||| u == 0x2029
    ||| u == 0x202f
    ||| u == 0x205f
    ||| u == 0x3000
}

pub fn char_is_white_space(c: char) -> (r: bool)
    ensures
        r == is_white_space(c),
{
    let u = c as u32;
    (0x09 <= u && u <= 0x0d) || u == 0x20 || u == 0x85 || u == 0xa0 || u == 0x1680 || (0x2000
        <= u && u <= 0x200a) || u == 0x2028 || u == 0x2029 || u == 0x202f || u == 0x205f || u
        == 0x3000
}

/// A text that trims to nothing: every character is whitespace.
pub open spec fn is_blank(s: Seq<char>) -> bool {
    forall|i: int| 0 <= i < s.len() ==> is_white_space(#[trigger] s[i])
}

pub fn is_blank_text(s: &str) -> (r: bool)
    ensures
        r == is_blank(s@),
{
    let x = chars_of(s);
    let mut i: usize = 0;
    while i < x.len()
        invariant
            0 <= i <= x@.len(),
            x@ == s@,
            forall|j: int| 0 <= j < i ==> is_white_space(#[trigger] x@[j]),
        decreases x@.len() - i,
    {
        if !char_is_white_space(x[i]) {
            return false;
        }
        i = i + 1;
    }
    true
}

/// `s` without its leading whitespace.
pub open spec fn trim_start(s: Seq<char>) -> Seq<char>
    decreases s.len(),
{
    if s.len() > 0 && is_white_space(s[0]) {
        trim_start(s.drop_first())
    } else {
        s
    }
}

/// `s` without its trailing whitespace.
pub open spec fn trim_end(s: Seq<char>) -> Seq<char>
    decreases s.len(),
{
    if s.len() > 0 && is_white_space(s.last()) {
        trim_end(s.drop_last())
    } else {
        s
    }
}

/// `s` without leading and trailing whitespace, as `str::trim` gives it.
pub open spec fn trim(s: Seq<char>) -> Seq<char> {
    trim_end(trim_start(s))
}

pub fn trim_start_chars(s: &Vec<char>) -> (out: Vec<char>)
    ensures
        out@ == trim_start(s@),
{
    let mut i: usize = 0;
    assert(s@.skip(0) =~= s@);
    while i < s.len() && char_is_white_space(s[i])
        invariant
            0 <= i <= s@.len(),
            trim_start(s@) == trim_start(s@.skip(i as int)),
        decreases s@.len() - i,
    {
        proof {
            assert(s@.skip(i as int).drop_first() =~= s@.skip(i + 1));
        }
        i = i + 1;
    }
    let mut out: Vec<char> = Vec::new();
    let start = i;
    while i < s.len()
        invariant
            start <= i <= s@.len(),
            out@ == s@.subrange(start as int, i as int),
        decreases s@.len() - i,
    {
        out.push(s[i]);
        proof {
            assert(s@.subrange(start as int, i + 1) =~= s@.subrange(start as int, i as int).push(
                s@[i as int],
            ));
        }
        i = i + 1;
    }
    proof {
        assert(out@ =~= s@.skip(start as int));
    }
    out
}

pub fn trim_end_chars(s: &Vec<char>) -> (out: Vec<char>)
    ensures
        out@ == trim_end(s@),
{
    let mut n: usize = s.len();
    assert(s@.subrange(0, n as int) =~= s@);
    while n > 0 && char_is_white_space(s[n - 1])
        invariant
            0 <= n <= s@.len(),
            trim_end(s@) == trim_end(s@.subrange(0, n as int)),
        decreases n,
    {
        proof {
            assert(s@.subrange(0, n as int).drop_last() =~= s@.subrange(0, n - 1));
        }
        n = n - 1;
    }
    let mut out: Vec<char> = Vec::new();
    let mut i: usize = 0;
    while i < n
        invariant
            0 <= i <= n <= s@.len(),
            out@ == s@.subrange(0, i as int),
        decreases n - i,
    {
        out.push(s[i]);
        proof {
            assert(s@.subrange(0, i + 1) =~= s@.subrange(0, i as int).push(s@[i as int]));
        }
        i = i + 1;
    }
    out
}

pub fn trim_chars(s: &Vec<char>) -> (out: Vec<char>)
    ensures
        out@ == trim(s@),
{
    let front = trim_start_chars(s);
    trim_end_chars(&front)
}

pub open spec fn is_ascii_digit(c: char) -> bool {
    48 <= (c as u32) <= 57
}

pub open spec fn digit_value(c: char) -> nat {
    ((c as u32) - 48) as nat
}

/// The number that a string of decimal digits denotes.
pub open spec fn digits_value(s: Seq<char>) -> nat
    decreases s.len(),
{
    if s.len() == 0 {
        0
    } else {
        digits_value(s.drop_last()) * 10 + digit_value(s.last())
    }
}

pub open spec fn all_digits(s: Seq<char>) -> bool {
    forall|i: int| 0 <= i < s.len() ==> is_ascii_digit(#[trigger] s[i])
}

/// `str::parse` for an unsigned integer type whose largest value is `max`: an
/// optional `+` and then one or more ASCII digits whose value fits.
pub open spec fn parse_unsigned(s: Seq<char>, max: nat) -> Option<nat> {
    let d = if s.len() > 0 && s[0] == '+' {
        s.drop_first()
    } else {
        s
    };
    if d.len() > 0 && all_digits(d) && digits_value(d) <= max {
        Some(digits_value(d))
    } else {
        None
    }
}

proof fn lemma_digits_prefix(d: Seq<char>, k: int)
    requires
        0 <= k < d.len(),
    ensures
        digits_value(d.take(k + 1)) == digits_value(d.take(k)) * 10 + digit_value(d[k]),
{
    assert(d.take(k + 1).drop_last() =~= d.take(k));
}

proof fn lemma_digits_monotone(d: Seq<char>, k: int, m: int)
    requires
        0 <= k <= m <= d.len(),
        all_digits(d),
    ensures
        digits_value(d.take(k)) <= digits_value(d.take(m)),
    decreases m - k,
{
    if k < m {
        lemma_digits_monotone(d, k, m - 1);
        lemma_digits_prefix(d, m - 1);
    }
}

pub fn parse_unsigned_chars(s: &Vec<char>, max: u32) -> (r: Option<u32>)
    ensures
        r matches Some(v) ==> parse_unsigned(s@, max as nat) == Some(v as nat),
        r is None ==> parse_unsigned(s@, max as nat) is None,
{
    let start: usize = if s.len() > 0 && s[0] == '+' {
        1
    } else {
        0
    };
    let ghost d = if s@.len() > 0 && s@[0] == '+' {
        s@.drop_first()
    } else {
        s@
    };
    assert(d =~= s@.skip(start as int));
    if start >= s.len() {
        assert(d.len() == 0);
        return None;
    }
    let mut acc: u64 = 0;
    let mut i: usize = start;
    assert(d.take(0) =~= Seq::<char>::empty());
    while i < s.len()
        invariant
            start <= i <= s@.len(),
            d =~= s@.skip(start as int),
            parse_unsigned(s@, max as nat) == (if d.len() > 0 && all_digits(d) && digits_value(d)
                <= max {
                Some(digits_value(d))
            } else {
                None
            }),
            acc as nat == digits_value(d.take(i - start)),
            acc <= max,
            all_digits(d.take(i - start)),
        decreases s@.len() - i,
    {
        let c = s[i];
        let code = c as u32;
        proof {
            assert(d[i - start] == s@[i as int]);
        }
        if code < 48 || code > 57 {
            proof {
                assert(!is_ascii_digit(d[i - start]));
                assert(!all_digits(d));
            }
            return None;
        }
        let next: u64 = acc * 10 + ((code - 48) as u64);
        proof {
            lemma_digits_prefix(d, i - start);
            assert(d[i - start] == c);
            assert(all_digits(d.take(i - start + 1))) by {
                assert forall|j: int| 0 <= j < d.take(i - start + 1).len() implies is_ascii_digit(
                    #[trigger] d.take(i - start + 1)[j],
                ) by {
                    if j < i - start {
                        assert(d.take(i - start + 1)[j] == d.take(i - start)[j]);
                    }
                }
            }
        }
        if next > max as u64 {
            proof {
                assert(next as nat == digits_value(d.take(i - start + 1)));
                if all_digits(d) {
                    lemma_digits_monotone(d, i - start + 1, d.len() as int);
                    assert(d.take(d.len() as int) =~= d);
                    assert(digits_value(d) > max);
                }
            }
            return None;
        }
        acc = next;
        i = i + 1;
    }
    proof {
        assert(d.take(i - start) =~= d);
    }
    Some(acc as u32)
}

/// `s` up to its first `;` or `|`: the first item of a multi-valued tag.
pub open spec fn first_segment(s: Seq<char>) -> Seq<char>
    decreases s.len(),
{
    if s.len() == 0 || s[0] == ';' || s[0] == '|' {
        Seq::empty()
    } else {
        seq![s[0]] + first_segment(s.drop_first())
    }
}

pub fn first_segment_chars(s: &Vec<char>) -> (out: Vec<char>)
    ensures
        out@ == first_segment(s@),
{
    let mut out: Vec<char> = Vec::new();
    let mut i: usize = 0;
    assert(s@.skip(0) =~= s@);
    while i < s.len() && s[i] != ';' && s[i] != '|'
        invariant
            0 <= i <= s@.len(),
            first_segment(s@) == out@ + first_segment(s@.skip(i as int)),
        decreases s@.len() - i,
    {
        proof {
            assert(s@.skip(i as int).drop_first() =~= s@.skip(i + 1));
            assert(out@.push(s@[i as int]) + first_segment(s@.skip(i + 1)) =~= out@ + (seq![
                s@[i as int],
            ] + first_segment(s@.skip(i + 1))));
        }
        out.push(s[i]);
        i = i + 1;
    }
    proof {
        assert(first_segment(s@.skip(i as int)) =~= Seq::<char>::empty());
        assert(out@ + Seq::<char>::empty() =~= out@);
    }
    out
}

/// `s` ends with `suffix`.
pub open spec fn ends_with(s: Seq<char>, suffix: Seq<char>) -> bool {
    s.len() >= suffix.len() && s.skip(s.len() - suffix.len()) == suffix
}

pub fn ends_with_chars(s: &Vec<char>, suffix: &Vec<char>) -> (r: bool)
    ensures
        r == ends_with(s@, suffix@),
{
    if s.len() < suffix.len() {
        return false;
    }
    let offset = s.len() - suffix.len();
    let mut i: usize = 0;
    while i < suffix.len()
        invariant
            0 <= i <= suffix@.len(),
            offset + suffix.len() == s.len(),
            forall|j: int| 0 <= j < i ==> s@[offset + j] == suffix@[j],
        decreases suffix@.len() - i,
    {
        if s[offset + i] != suffix[i] {
            proof {
                assert(s@.skip(offset as int)[i as int] != suffix@[i as int]);
            }
            return false;
        }
        i = i + 1;
    }
    assert(s@.skip(offset as int) =~= suffix@);
    true
}

/// The decimal digit characters.
pub open spec fn decimal_digits() -> Seq<char> {
    "0123456789"@
}

/// `n` in decimal, without leading zeros.
pub open spec fn decimal(n: nat) -> Seq<char>
    decreases n,
{
    if n < 10 {
        seq![decimal_digits()[n as int]]
    } else {
        decimal(n / 10) + seq![decimal_digits()[(n % 10) as int]]
    }
}

/// `n` written in decimal, as `{}` formats an unsigned integer.
pub fn decimal_text(n: u64) -> (r: String)
    ensures
        r@ == decimal(n as nat),
    decreases n,
{
    let digits = "0123456789";
    proof {
        reveal_strlit("0123456789");
    }
    let last = (n % 10) as usize;
    let mut out = if n < 10 {
        String::new()
    } else {
        decimal_text(n / 10)
    };
    out.append(digits.substring_char(last, last + 1));
    proof {
        assert(digits@.subrange(last as int, last + 1) =~= seq![decimal_digits()[last as int]]);
        if n < 10 {
            assert(out@ =~= seq![decimal_digits()[n as int]]);
        }
    }
    out
}

} // verus!
