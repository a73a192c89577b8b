//! Decimal and hexadecimal text: rendering numbers, trimming whitespace and
//! parsing unsigned integers the way `str::trim` and `u64::from_str` do.

use vstd::prelude::*;

verus! {

/// The character of the digit `d` (0 to 15): `0`-`9`, then `a`-`f`.
pub open spec fn digit_char(d: int) -> char {
    if d < 10 {
        (d + 48) as char
    } else {
        (d + 87) as char
    }
}

/// Shortest decimal rendering of `n` (no sign, no leading zeros; `0` for zero).
pub open spec fn decimal(n: nat) -> Seq<char>
    decreases n,
{
    if n < 10 {
        seq![digit_char(n as int)]
    } else {
        decimal(n / 10) + seq![digit_char((n % 10) as int)]
    }
}

/// Shortest lower-case hexadecimal rendering of `n` (as `format!("{:x}", n)`).
pub open spec fn hex_lower(n: nat) -> Seq<char>
    decreases n,
{
    if n < 16 {
        seq![digit_char(n as int)]
    } else {
        hex_lower(n / 16) + seq![digit_char((n % 16) as int)]
    }
}

pub open spec fn is_decimal_digit(c: char) -> bool {
    '0' <= c <= '9'
}

pub open spec fn is_hex_digit_lower(c: char) -> bool {
    '0' <= c <= '9' || 'a' <= c <= 'f'
}

/// Value of a digit character; meaningful for `0`-`9` and `a`-`f`.
pub open spec fn digit_value(c: char) -> int {
    if c <= '9' {
        c as int - 48
    } else {
        c as int - 87
    }
}

/// Value of a sequence of decimal digits, most significant first.
pub open spec fn decimal_value(s: Seq<char>) -> int
    decreases s.len(),
{
    if s.len() == 0 {
        0
    } else {
        decimal_value(s.drop_last()) * 10 + digit_value(s.last())
    }
}

/// Value of a sequence of hexadecimal digits, most significant first.
pub open spec fn hex_value(s: Seq<char>) -> int
    decreases s.len(),
{
    if s.len() == 0 {
        0
    } else {
        hex_value(s.drop_last()) * 16 + digit_value(s.last())
    }
}

pub open spec fn all_decimal_digits(s: Seq<char>) -> bool {
    forall|i: int| 0 <= i < s.len() ==> is_decimal_digit(#[trigger] s[i])
}

pub open spec fn all_hex_digits_lower(s: Seq<char>) -> bool {
    forall|i: int| 0 <= i < s.len() ==> is_hex_digit_lower(#[trigger] s[i])
}

/// What `u64::from_str` accepts: an optional `+`, then one or more decimal
/// digits whose value fits in a `u64`.
pub open spec fn parse_u64(s: Seq<char>) -> Option<u64> {
    let digits = if s.len() > 0 && s[0] == '+' {
        s.drop_first()
    } else {
        s
    };
    if digits.len() > 0 && all_decimal_digits(digits) && decimal_value(digits) <= u64::MAX {
        Some(decimal_value(digits) as u64)
    } else {
        None
    }
}

/// The characters that `char::is_whitespace` accepts (Unicode `White_Space`).
pub open spec fn is_whitespace(c: char) -> bool {
    ||| '\t' <= c <= '\r'
    ||| c == ' '
    ||| c == '\u{85}'
    ||| c == '\u{a0}'
    ||| c == '\u{1680}'
    ||| '\u{2000}' <= c <= '\u{200a}'
    ||| c == '\u{2028}'
    ||| c == '\u{2029}'
    ||| c == '\u{202f}'
    ||| c == '\u{205f}'
    ||| c == '\u{3000}'
}

pub open spec fn trim_start(s: Seq<char>) -> Seq<char>
    decreases s.len(),
{
    if s.len() > 0 && is_whitespace(s[0]) {
        trim_start(s.drop_first())
    } else {
        s
    }
}

pub open spec fn trim_end(s: Seq<char>) -> Seq<char>
    decreases s.len(),
{
    if s.len() > 0 && is_whitespace(s.last()) {
        trim_end(s.drop_last())
    } else {
        s
    }
}

/// `s` without leading and trailing whitespace, as `str::trim` gives it.
pub open spec fn trim(s: Seq<char>) -> Seq<char> {
    trim_end(trim_start(s))
}

/// The one-character string of the digit `d`.
fn digit_str(d: u64) -> (s: &'static str)
    requires
        d < 16,
    ensures
        s@ == seq![digit_char(d as int)],
{
    match d {
        0 => { proof { reveal_strlit("0"); } "0" },
        1 => { proof { reveal_strlit("1"); } "1" },
        2 => { proof { reveal_strlit("2"); } "2" },
        3 => { proof { reveal_strlit("3"); } "3" },
        4 => { proof { reveal_strlit("4"); } "4" },
        5 => { proof { reveal_strlit("5"); } "5" },
        6 => { proof { reveal_strlit("6"); } "6" },
        7 => { proof { reveal_strlit("7"); } "7" },
        8 => { proof { reveal_strlit("8"); } "8" },
        9 => { proof { reveal_strlit("9"); } "9" },
        10 => { proof { reveal_strlit("a"); } "a" },
        11 => { proof { reveal_strlit("b"); } "b" },
        12 => { proof { reveal_strlit("c"); } "c" },
        13 => { proof { reveal_strlit("d"); } "d" },
        14 => { proof { reveal_strlit("e"); } "e" },
        _ => { proof { reveal_strlit("f"); } "f" },
    }
}

/// Appends the decimal rendering of `n` to `out`.
pub fn push_decimal(out: &mut String, n: u64)
    ensures
        final(out)@ == old(out)@ + decimal(n as nat),
    decreases n,
{
    if n >= 10 {
        push_decimal(out, n / 10);
    }
    out.append(digit_str(n % 10));
    proof {
        assert(old(out)@ + decimal(n as nat) =~= out@);
    }
}

/// Appends the lower-case hexadecimal rendering of `n` to `out`.
pub fn push_hex_lower(out: &mut String, n: u64)
    ensures
        final(out)@ == old(out)@ + hex_lower(n as nat),
    decreases n,
{
    if n >= 16 {
        push_hex_lower(out, n / 16);
    }
    out.append(digit_str(n % 16));
    proof {
        assert(old(out)@ + hex_lower(n as nat) =~= out@);
    }
}

/// The decimal rendering of `n`, as `n.to_string()` gives it.
pub fn decimal_string(n: u64) -> (s: String)
    ensures
        s@ == decimal(n as nat),
{
    let mut s = String::new();
    push_decimal(&mut s, n);
    proof {
        assert(s@ =~= decimal(n as nat));
    }
    s
}

/// The characters of `s`, in order.
pub fn chars_of(s: &str) -> (v: Vec<char>)
    ensures
        v@ == s@,
{
    let mut v: Vec<char> = Vec::new();
    for c in it: s.chars()
        invariant
            v@ == it.seq().take(it.index() as int),
    {
        v.push(c);
    }
    assert(v@ =~= s@);
    v
}

/// Whether `c` is white space, as `char::is_whitespace` decides it.
pub fn char_is_whitespace(c: char) -> (b: bool)
    ensures
        b == is_whitespace(c),
{
    ('\t' <= c && c <= '\r') || c == ' ' || c == '\u{85}' || c == '\u{a0}' || c == '\u{1680}' || (
    '\u{2000}' <= c && c <= '\u{200a}') || c == '\u{2028}' || c == '\u{2029}' || c == '\u{202f}'
        || c == '\u{205f}' || c == '\u{3000}'
}

proof fn lemma_decimal_value_grows(s: Seq<char>, i: int)
    requires
        0 <= i <= s.len(),
        all_decimal_digits(s),
    ensures
        decimal_value(s.take(i)) <= decimal_value(s),
        decimal_value(s.take(i)) >= 0,
    decreases s.len(),
{
    if s.len() > 0 {
        let p = s.drop_last();
        assert(all_decimal_digits(p)) by {
            assert forall|k: int| 0 <= k < p.len() implies is_decimal_digit(#[trigger] p[k]) by {
                assert(p[k] == s[k]);
            }
        }
        assert(is_decimal_digit(s[s.len() - 1]));
        if i == s.len() {
            assert(s.take(i) =~= s);
            lemma_decimal_value_grows(p, p.len() as int);
            assert(p.take(p.len() as int) =~= p);
        } else {
            lemma_decimal_value_grows(p, i);
            assert(p.take(i) =~= s.take(i));
            lemma_decimal_value_grows(p, p.len() as int);
            assert(p.take(p.len() as int) =~= p);
        }
    } else {
        assert(s.take(i) =~= s);
    }
}

/// Parses `v[start..end]` as `u64::from_str` does.
fn parse_u64_range(v: &Vec<char>, start: usize, end: usize) -> (r: Option<u64>)
    requires
        start <= end <= v.len(),
    ensures
        r == parse_u64(v@.subrange(start as int, end as int)),
{
    let ghost s = v@.subrange(start as int, end as int);
    let mut k = start;
    if k < end && v[k] == '+' {
        k = k + 1;
    }
    let ghost digits = v@.subrange(k as int, end as int);
    assert(digits =~= (if s.len() > 0 && s[0] == '+' { s.drop_first() } else { s }));
    if k == end {
        return None;
    }
    let mut acc: u64 = 0;
    let mut j = k;
    while j < end
        invariant
            start <= k <= j <= end <= v.len(),
            digits == v@.subrange(k as int, end as int),
            s == v@.subrange(start as int, end as int),
            digits == (if s.len() > 0 && s[0] == '+' { s.drop_first() } else { s }),
            digits.len() > 0,
            all_decimal_digits(v@.subrange(k as int, j as int)),
            acc as int == decimal_value(v@.subrange(k as int, j as int)),
        decreases end - j,
    {
        let c = v[j];
        let ghost prefix = v@.subrange(k as int, j as int);
        let ghost next = v@.subrange(k as int, j + 1);
        assert(next.drop_last() =~= prefix);
        assert(next.last() == c);
        if !('0' <= c && c <= '9') {
            assert(digits[j - k] == c);
            return None;
        }
        let d = (c as u64) - 48;
        assert(all_decimal_digits(next)) by {
            assert forall|i: int| 0 <= i < next.len() implies is_decimal_digit(#[trigger] next[i]) by {
                if i < next.len() - 1 {
                    assert(next[i] == prefix[i]);
                }
            }
        }
        if acc > (u64::MAX - d) / 10 {
            proof {
                assert(decimal_value(next) > u64::MAX);
                if all_decimal_digits(digits) {
                    assert(digits.take(j + 1 - k) =~= next);
                    lemma_decimal_value_grows(digits, j + 1 - k);
                }
            }
            return None;
        }
        acc = acc * 10 + d;
        j = j + 1;
    }
    assert(v@.subrange(k as int, j as int) =~= digits);
    Some(acc)
}

/// Parses `s` with surrounding white space removed, as
/// `s.trim().parse::<u64>().ok()` does.
pub fn parse_trimmed_u64(s: &str) -> (r: Option<u64>)
    ensures
        r == parse_u64(trim(s@)),
{
    let v = chars_of(s);
    let len = v.len();
    let mut i: usize = 0;
    assert(v@.subrange(0, len as int) =~= v@);
    while i < len && char_is_whitespace(v[i])
        invariant
            i <= len,
            len == v@.len(),
            trim_start(v@) == trim_start(v@.subrange(i as int, len as int)),
        decreases len - i,
    {
        let ghost t = v@.subrange(i as int, len as int);
        assert(t.drop_first() =~= v@.subrange(i + 1, len as int));
        i = i + 1;
    }
    let mut j: usize = len;
    while j > i && char_is_whitespace(v[j - 1])
        invariant
            i <= j <= len,
            len == v@.len(),
            trim_start(v@) == v@.subrange(i as int, len as int),
            trim(v@) == trim_end(v@.subrange(i as int, j as int)),
        decreases j,
    {
        let ghost t = v@.subrange(i as int, j as int);
        assert(t.drop_last() =~= v@.subrange(i as int, j - 1));
        j = j - 1;
    }
    parse_u64_range(&v, i, j)
}


/// A decimal rendering is a non-empty run of digits that reads back as the
/// number it renders.
pub proof fn lemma_decimal_round_trip(n: nat)
    ensures
        decimal(n).len() > 0,
        all_decimal_digits(decimal(n)),
        decimal_value(decimal(n)) == n,
    decreases n,
{
    let c = digit_char((n % 10) as int);
    assert(c as int == (n % 10) + 48);
    assert(digit_value(c) == n % 10);
    if n < 10 {
        let d = decimal(n);
        assert(d.drop_last() =~= Seq::<char>::empty());
        assert(decimal_value(d.drop_last()) == 0);
        assert(d.last() == c);
    } else {
        lemma_decimal_round_trip(n / 10);
        let d = decimal(n);
        assert(d.drop_last() =~= decimal(n / 10));
        assert(d.last() == c);
        assert(decimal_value(d) == decimal_value(decimal(n / 10)) * 10 + digit_value(c));
        assert(decimal_value(d) == n);
        assert forall|i: int| 0 <= i < d.len() implies is_decimal_digit(#[trigger] d[i]) by {
            if i < d.len() - 1 {
                assert(d[i] == decimal(n / 10)[i]);
            }
        }
    }
}

/// A hexadecimal rendering is a non-empty run of lower-case hex digits that
/// reads back as the number it renders.
pub proof fn lemma_hex_round_trip(n: nat)
    ensures
        hex_lower(n).len() > 0,
        all_hex_digits_lower(hex_lower(n)),
        hex_value(hex_lower(n)) == n,
    decreases n,
{
    let c = digit_char((n % 16) as int);
    if n % 16 < 10 {
        assert(c as int == (n % 16) + 48);
    } else {
        assert(c as int == (n % 16) + 87);
    }
    assert(digit_value(c) == n % 16);
    if n < 16 {
        let h = hex_lower(n);
        assert(h.drop_last() =~= Seq::<char>::empty());
        assert(hex_value(h.drop_last()) == 0);
        assert(h.last() == c);
    } else {
        lemma_hex_round_trip(n / 16);
        let h = hex_lower(n);
        assert(h.drop_last() =~= hex_lower(n / 16));
        assert(h.last() == c);
        assert forall|i: int| 0 <= i < h.len() implies is_hex_digit_lower(#[trigger] h[i]) by {
            if i < h.len() - 1 {
                assert(h[i] == hex_lower(n / 16)[i]);
            }
        }
    }
}

/// Powers of sixteen.
pub open spec fn pow16(k: nat) -> nat
    decreases k,
{
    if k == 0 {
        1
    } else {
        16 * pow16((k - 1) as nat)
    }
}

/// A number below `16^k` needs at most `k` hexadecimal digits.
pub proof fn lemma_hex_length(n: nat, k: nat)
    requires
        1 <= k,
        n < pow16(k),
    ensures
        hex_lower(n).len() <= k,
    decreases k,
{
    if n >= 16 {
        assert(k >= 2) by {
            if k == 1 {
                assert(pow16(0) == 1);
            }
        }
        assert(n / 16 < pow16((k - 1) as nat));
        lemma_hex_length(n / 16, (k - 1) as nat);
    }
}

/// Law: rendering a number in decimal and parsing it back, as
/// `n.to_string().parse::<u64>()` does, gives the number again; so does
/// parsing it with white space around it removed, as in a line of command
/// output.
pub proof fn law_decimal_parses_back(n: u64)
    ensures
        parse_u64(decimal(n as nat)) == Some(n),
        parse_u64(trim(decimal(n as nat) + seq!['\n'])) == Some(n),
{
    lemma_decimal_round_trip(n as nat);
    let d = decimal(n as nat);
    assert(is_decimal_digit(d[0]));
    let line = d + seq!['\n'];
    assert(line[0] == d[0]);
    assert(trim_start(line) == line);
    assert(line.drop_last() =~= d);
    assert(is_decimal_digit(d.last()));
    assert(trim_end(d) == d);
    assert(trim_end(line) == trim_end(d));
}

/// Law: two numbers with the same hexadecimal rendering are equal.
pub proof fn law_hex_injective(a: nat, b: nat)
    requires
        hex_lower(a) == hex_lower(b),
    ensures
        a == b,
{
    lemma_hex_round_trip(a);
    lemma_hex_round_trip(b);
}

} // verus!
