//! Decimal and hexadecimal number text, as Rust's integer formatting and
//! `str::parse` produce and read it.

use vstd::prelude::*;

verus! {

/// The digit character for `d` (`0`-`9`, then `A`-`F` or `a`-`f`).
pub open spec fn digit(d: nat, upper: bool) -> char {
    if d < 10 {
        ((('0' as u32) + d) as u32) as char
    } else if upper {
        ((('A' as u32) + d - 10) as u32) as char
    } else {
        ((('a' as u32) + d - 10) as u32) as char
    }
}

/// The digits of `n` in `base` (10 or 16), most significant first, without
/// leading zeros; `0` is the single digit `0`.
pub open spec fn radix(n: nat, base: nat, upper: bool) -> Seq<char>
    recommends
        base == 10 || base == 16,
    decreases n,
{
    if base < 2 || n < base {
        seq![digit(n, upper)]
    } else {
        proof {
            assert(n / base < n) by (nonlinear_arith)
                requires
                    base >= 2,
                    n >= base,
            ;
        }
        radix(n / base, base, upper).push(digit(n % base, upper))
    }
}

/// `format!("{}", n)` for an unsigned integer.
pub open spec fn decimal(n: nat) -> Seq<char> {
    radix(n, 10, true)
}

/// `format!("{:X}", n)`.
pub open spec fn hex_upper(n: nat) -> Seq<char> {
    radix(n, 16, true)
}

/// `format!("{:x}", n)`.
pub open spec fn hex_lower(n: nat) -> Seq<char> {
    radix(n, 16, false)
}

/// Left-pads `s` with `0` up to `width` characters.
pub open spec fn zero_pad(s: Seq<char>, width: nat) -> Seq<char> {
    if s.len() >= width {
        s
    } else {
        Seq::new((width - s.len()) as nat, |i: int| '0') + s
    }
}

/// `format!("{}", v)` for a signed integer.
pub open spec fn signed_decimal(v: int) -> Seq<char> {
    if v < 0 {
        seq!['-'] + decimal((-v) as nat)
    } else {
        decimal(v as nat)
    }
}

/// Appends the digits of `n` in `base` to `out`.
fn push_radix(n: u64, base: u64, upper: bool, out: &mut Vec<char>)
    requires
        base == 10 || base == 16,
    ensures
        final(out)@ == old(out)@ + radix(n as nat, base as nat, upper),
    decreases n,
{
    if n >= base {
        push_radix(n / base, base, upper, out);
    }
    let d: u64 = n % base;
    let c: char = if d < 10 {
        let b: u8 = (48 + d) as u8;
        b as char
    } else if upper {
        let b: u8 = (65 + d - 10) as u8;
        b as char
    } else {
        let b: u8 = (97 + d - 10) as u8;
        b as char
    };
    let ghost before = out@;
    out.push(c);
    proof {
        if n >= base {
            assert(radix(n as nat, base as nat, upper) == radix((n / base) as nat, base as nat, upper).push(digit((n % base) as nat, upper)));
        } else {
            assert(n % base == n);
        }
        assert(out@ =~= old(out)@ + radix(n as nat, base as nat, upper));
    }
}

/// `format!("{}", n)`.
pub fn decimal_chars(n: u64) -> (r: Vec<char>)
    ensures
        r@ == decimal(n as nat),
{
    let mut out: Vec<char> = Vec::new();
    push_radix(n, 10, true, &mut out);
    assert(out@ =~= decimal(n as nat));
    out
}

/// `format!("{}", n)` as a string.
pub fn decimal_string(n: u64) -> (r: String)
    ensures
        r@ == decimal(n as nat),
{
    let v = decimal_chars(n);
    crate::text::string_of(v.as_slice())
}

/// `format!("{}", v)` for a signed integer.
pub fn signed_decimal_string(v: i64) -> (r: String)
    ensures
        r@ == signed_decimal(v as int),
{
    if v < 0 {
        let m: u64 = if v == i64::MIN {
            9223372036854775808u64
        } else {
            (-v) as u64
        };
        let mut out: Vec<char> = Vec::new();
        out.push('-');
        push_radix(m, 10, true, &mut out);
        assert(out@ =~= signed_decimal(v as int));
        crate::text::string_of(out.as_slice())
    } else {
        decimal_string(v as u64)
    }
}

/// Left-pads with `0` to `width` characters.
pub fn zero_pad_chars(s: Vec<char>, width: usize) -> (r: Vec<char>)
    ensures
        r@ == zero_pad(s@, width as nat),
{
    if s.len() >= width {
        return s;
    }
    let k = width - s.len();
    let mut r: Vec<char> = Vec::new();
    let mut i: usize = 0;
    while i < k
        invariant
            i <= k,
            r@ == Seq::new(i as nat, |j: int| '0'),
        decreases k - i,
    {
        r.push('0');
        i = i + 1;
        assert(r@ =~= Seq::new(i as nat, |j: int| '0'));
    }
    let mut j: usize = 0;
    let ghost pad = r@;
    while j < s.len()
        invariant
            j <= s@.len(),
            r@ == pad + s@.subrange(0, j as int),
        decreases s@.len() - j,
    {
        r.push(s[j]);
        j = j + 1;
        assert(r@ =~= pad + s@.subrange(0, j as int));
    }
    assert(s@.subrange(0, s@.len() as int) =~= s@);
    r
}

/// `format!("{:X}", n)`, zero-padded to `width`.
pub fn hex_upper_chars(n: u64, width: usize) -> (r: Vec<char>)
    ensures
        r@ == zero_pad(hex_upper(n as nat), width as nat),
{
    let mut out: Vec<char> = Vec::new();
    push_radix(n, 16, true, &mut out);
    assert(out@ =~= hex_upper(n as nat));
    zero_pad_chars(out, width)
}

/// `format!("{:x}", n)`, zero-padded to `width`.
pub fn hex_lower_chars(n: u64, width: usize) -> (r: Vec<char>)
    ensures
        r@ == zero_pad(hex_lower(n as nat), width as nat),
{
    let mut out: Vec<char> = Vec::new();
    push_radix(n, 16, false, &mut out);
    assert(out@ =~= hex_lower(n as nat));
    zero_pad_chars(out, width)
}

/// Whether `c` is an ASCII decimal digit.
pub open spec fn is_digit(c: char) -> bool {
    '0' <= c && c <= '9'
}

/// The value of a run of decimal digits.
pub open spec fn digits_value(s: Seq<char>) -> int
    decreases s.len(),
{
    if s.len() == 0 {
        0
    } else {
        digits_value(s.drop_last()) * 10 + ((s.last() as u32) - ('0' as u32))
    }
}

/// Whether every character of `s` is a decimal digit.
pub open spec fn all_digits(s: Seq<char>) -> bool {
    forall|i: int| 0 <= i < s.len() ==> is_digit(#[trigger] s[i])
}

/// What `str::parse::<u64>` reads from `s`, bounded by `max`: an optional
/// `+`, then one or more decimal digits whose value is at most `max`.
pub open spec fn parse_unsigned(s: Seq<char>, max: int) -> Option<int> {
    let body = if s.len() > 0 && s[0] == '+' {
        s.drop_first()
    } else {
        s
    };
    if body.len() > 0 && all_digits(body) && digits_value(body) <= max {
        Some(digits_value(body))
    } else {
        None
    }
}

/// Digit runs only grow when extended.
proof fn lemma_digits_value_grows(s: Seq<char>, k: int, j: int)
    requires
        0 <= k <= j <= s.len(),
        all_digits(s),
    ensures
        digits_value(s.subrange(0, j)) >= digits_value(s.subrange(0, k)),
        digits_value(s.subrange(0, k)) >= 0,
    decreases j - k,
{
    if k < j {
        lemma_digits_value_grows(s, k, j - 1);
        assert(s.subrange(0, j).drop_last() =~= s.subrange(0, j - 1));
        lemma_digits_value_nonneg(s.subrange(0, j - 1));
    } else {
        lemma_digits_value_nonneg(s.subrange(0, k));
    }
}

/// A digit run has a non-negative value.
proof fn lemma_digits_value_nonneg(s: Seq<char>)
    requires
        all_digits(s),
    ensures
        digits_value(s) >= 0,
    decreases s.len(),
{
    if s.len() > 0 {
        assert(all_digits(s.drop_last())) by {
            assert forall|i: int| 0 <= i < s.drop_last().len() implies is_digit(#[trigger] s.drop_last()[i]) by {
                assert(s.drop_last()[i] == s[i]);
            }
        }
        lemma_digits_value_nonneg(s.drop_last());
    }
}

/// Reads an unsigned decimal number no larger than `max`, as `str::parse`
/// does for the unsigned integer type whose largest value is `max`.
pub fn parse_unsigned_chars(s: &[char], max: u64) -> (r: Option<u64>)
    requires
        max >= 9,
    ensures
        match parse_unsigned(s@, max as int) {
            Some(v) => r == Some(v as u64),
            None => r is None,
        },
{
    let start: usize = if s.len() > 0 && s[0] == '+' { 1 } else { 0 };
    let ghost body = if s@.len() > 0 && s@[0] == '+' { s@.drop_first() } else { s@ };
    assert(body =~= s@.subrange(start as int, s@.len() as int));
    if start >= s.len() {
        return None;
    }
    let mut acc: u64 = 0;
    let mut i: usize = start;
    while i < s.len()
        invariant
            start <= i <= s@.len(),
            body == s@.subrange(start as int, s@.len() as int),
            body == (if s@.len() > 0 && s@[0] == '+' { s@.drop_first() } else { s@ }),
            max >= 9,
            all_digits(body.subrange(0, i - start)),
            acc as int == digits_value(body.subrange(0, i - start)),
            acc <= max,
        decreases s@.len() - i,
    {
        let c = s[i];
        if !('0' <= c && c <= '9') {
            assert(body[i - start] == c);
            assert(!is_digit(body[i - start]));
            return None;
        }
        let d: u64 = ((c as u32) - 48) as u64;
        assert(d <= 9);
        let ghost prev = body.subrange(0, i - start);
        let ghost next = body.subrange(0, i + 1 - start);
        assert(next.drop_last() =~= prev);
        assert(next.last() == c);
        assert(all_digits(next)) by {
            assert forall|k: int| 0 <= k < next.len() implies is_digit(#[trigger] next[k]) by {
                if k < prev.len() {
                    assert(next[k] == prev[k]);
                }
            }
        }
        if acc > (max - d) / 10 {
            proof {
                assert(digits_value(next) == digits_value(next.drop_last()) * 10 + ((next.last() as u32) - ('0' as u32)));
                assert(digits_value(next) == acc * 10 + d);
                assert(acc * 10 + d > max) by (nonlinear_arith)
                    requires
                        acc > (max - d) / 10,
                        d <= 9,
                        d <= max,
                ;
                if all_digits(body) {
                    lemma_digits_value_grows(body, i + 1 - start, body.len() as int);
                    assert(body.subrange(0, body.len() as int) =~= body);
                }
            }
            return None;
        }
        acc = acc * 10 + d;
        i = i + 1;
    }
    assert(body.subrange(0, s@.len() - start) =~= body);
    Some(acc)
}

/// `format!("{}", n)` is a non-empty run of decimal digits worth `n`.
pub proof fn lemma_decimal_digits(n: nat)
    ensures
        decimal(n).len() > 0,
        all_digits(decimal(n)),
        digits_value(decimal(n)) == n,
    decreases n,
{
    let d = decimal(n);
    if n < 10 {
        assert(d == seq![digit(n, true)]);
        assert(d.drop_last() =~= Seq::<char>::empty());
        assert((digit(n, true) as u32) == ('0' as u32) + n);
        assert(digits_value(d) == digits_value(d.drop_last()) * 10 + n);
    } else {
        lemma_decimal_digits(n / 10);
        let p = decimal(n / 10);
        assert(d == p.push(digit(n % 10, true)));
        assert(d.drop_last() =~= p);
        assert((digit(n % 10, true) as u32) == ('0' as u32) + n % 10);
        assert(digits_value(d) == digits_value(p) * 10 + (n % 10));
        assert((n / 10) * 10 + n % 10 == n) by (nonlinear_arith);
        assert forall|i: int| 0 <= i < d.len() implies is_digit(#[trigger] d[i]) by {
            if i < p.len() {
                assert(d[i] == p[i]);
            }
        }
    }
}

/// What `parse_unsigned` reads lies between 0 and the bound.
pub proof fn lemma_parse_unsigned_bounds(s: Seq<char>, max: int)
    ensures
        parse_unsigned(s, max) matches Some(v) ==> 0 <= v <= max,
{
    let body = if s.len() > 0 && s[0] == '+' {
        s.drop_first()
    } else {
        s
    };
    if body.len() > 0 && all_digits(body) {
        lemma_digits_value_nonneg(body);
    }
}

/// Reading back `format!("{}", n)` gives `n`.
pub proof fn lemma_parse_decimal(n: nat, max: int)
    requires
        n <= max,
    ensures
        parse_unsigned(decimal(n), max) == Some(n as int),
{
    lemma_decimal_digits(n);
    assert(is_digit(decimal(n)[0]));
}

} // verus!
