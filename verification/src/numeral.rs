//! Decimal and hexadecimal numerals: what `Display`, `{:08x}` and
//! `FromStr` produce and accept for integers.

use vstd::prelude::*;

verus! {

/// The decimal digit character for `d < 10`.
pub open spec fn digit_char(d: nat) -> char {
    if d == 0 { '0' }
    else if d == 1 { '1' }
    else if d == 2 { '2' }
    else if d == 3 { '3' }
    else if d == 4 { '4' }
    else if d == 5 { '5' }
    else if d == 6 { '6' }
    else if d == 7 { '7' }
    else if d == 8 { '8' }
    else { '9' }
}

/// The lower-case hexadecimal digit character for `d < 16`.
pub open spec fn hex_char(d: nat) -> char {
    if d < 10 { digit_char(d) }
    else if d == 10 { 'a' }
    else if d == 11 { 'b' }
    else if d == 12 { 'c' }
    else if d == 13 { 'd' }
    else if d == 14 { 'e' }
    else { 'f' }
}

pub open spec fn is_digit(c: char) -> bool {
    '0' <= c && c <= '9'
}

pub open spec fn digit_value(c: char) -> nat {
    (c as int - '0' as int) as nat
}

/// Decimal numeral of `n`, without leading zeros (`Display` for unsigned
/// integers).
pub open spec fn decimal(n: nat) -> Seq<char>
    decreases n,
{
    if n < 10 {
        seq![digit_char(n)]
    } else {
        decimal(n / 10).push(digit_char(n % 10))
    }
}

/// Decimal numeral of `i`, with a leading `-` when negative (`Display` for
/// signed integers).
pub open spec fn signed_decimal(i: int) -> Seq<char> {
    if i < 0 {
        seq!['-'] + decimal((-i) as nat)
    } else {
        decimal(i as nat)
    }
}

/// The last `k` hexadecimal digits of `n`, zero-padded.
pub open spec fn hex_fixed(n: nat, k: nat) -> Seq<char>
    decreases k,
{
    if k == 0 {
        Seq::<char>::empty()
    } else {
        hex_fixed(n / 16, (k - 1) as nat).push(hex_char(n % 16))
    }
}

/// The bits of a 32-bit signed value read as unsigned (what `{:x}` prints
/// for an `i32`).
pub open spec fn twos_complement_u32(v: i32) -> nat {
    if v < 0 {
        (v + 0x1_0000_0000) as nat
    } else {
        v as nat
    }
}

/// Value of a string of decimal digits.
pub open spec fn digits_value(s: Seq<char>) -> nat
    decreases s.len(),
{
    if s.len() == 0 {
        0
    } else {
        digits_value(s.drop_last()) * 10 + digit_value(s.last())
    }
}

pub open spec fn all_digits(s: Seq<char>) -> bool {
    forall|i: int| 0 <= i < s.len() ==> is_digit(#[trigger] s[i])
}

/// What `str::parse::<isize>` accepts: an optional `+` or `-`, then one or
/// more decimal digits, naming a value in `isize`'s range.
pub open spec fn parse_isize_spec(s: Seq<char>) -> Option<int> {
    let neg = s.len() > 0 && s[0] == '-';
    let body = if s.len() > 0 && (s[0] == '-' || s[0] == '+') {
        s.drop_first()
    } else {
        s
    };
    if body.len() == 0 || !all_digits(body) {
        None
    } else {
        let v = if neg {
            -(digits_value(body) as int)
        } else {
            digits_value(body) as int
        };
        if isize::MIN <= v && v <= isize::MAX {
            Some(v)
        } else {
            None
        }
    }
}

fn digit_to_char(d: u64) -> (c: char)
    requires
        d < 16,
    ensures
        c == hex_char(d as nat),
{
    match d {
        0 => '0',
        1 => '1',
        2 => '2',
        3 => '3',
        4 => '4',
        5 => '5',
        6 => '6',
        7 => '7',
        8 => '8',
        9 => '9',
        10 => 'a',
        11 => 'b',
        12 => 'c',
        13 => 'd',
        14 => 'e',
        _ => 'f',
    }
}

/// Appends the decimal numeral of `n`.
pub fn push_decimal(out: &mut Vec<char>, n: u64)
    ensures
        final(out)@ == old(out)@ + decimal(n as nat),
    decreases n,
{
    if n >= 10 {
        push_decimal(out, n / 10);
    }
    let c = digit_to_char(n % 10);
    out.push(c);
    proof {
        if n < 10 {
            assert(decimal(n as nat) == seq![digit_char(n as nat)]);
        }
    }
}

/// Appends the decimal numeral of `i` (with `-` when negative).
pub fn push_signed_decimal(out: &mut Vec<char>, i: i64)
    ensures
        final(out)@ == old(out)@ + signed_decimal(i as int),
{
    if i < 0 {
        let ghost before = out@;
        out.push('-');
        let m: u64 = (0i128 - (i as i128)) as u64;
        push_decimal(out, m);
        assert(out@ =~= before + signed_decimal(i as int));
    } else {
        push_decimal(out, i as u64);
    }
}

/// Decimal numeral of an unsigned value, as a `String`.
pub fn decimal_string(n: u64) -> (s: String)
    ensures
        s@ == decimal(n as nat),
{
    let mut v: Vec<char> = Vec::new();
    push_decimal(&mut v, n);
    assert(v@ =~= decimal(n as nat));
    crate::text::string_from_chars(v.as_slice())
}

/// Decimal numeral of a signed value, as a `String`.
pub fn signed_decimal_string(i: i64) -> (s: String)
    ensures
        s@ == signed_decimal(i as int),
{
    let mut v: Vec<char> = Vec::new();
    push_signed_decimal(&mut v, i);
    assert(v@ =~= signed_decimal(i as int));
    crate::text::string_from_chars(v.as_slice())
}

/// Appends the last `k` hexadecimal digits of `n`, zero-padded.
pub fn push_hex_fixed(out: &mut Vec<char>, n: u64, k: u32)
    ensures
        final(out)@ == old(out)@ + hex_fixed(n as nat, k as nat),
    decreases k,
{
    if k > 0 {
        push_hex_fixed(out, n / 16, k - 1);
        let c = digit_to_char(n % 16);
        out.push(c);
    }
}

/// `format!("{:08x}", v)` for an `i32`: eight lower-case hexadecimal digits
/// of the value's 32 bits.
pub fn hex8_of_i32(v: i32) -> (s: Vec<char>)
    ensures
        s@ == hex_fixed(twos_complement_u32(v), 8),
{
    let u: u64 = if v < 0 {
        (v as i64 + 0x1_0000_0000i64) as u64
    } else {
        v as u64
    };
    let mut out: Vec<char> = Vec::new();
    push_hex_fixed(&mut out, u, 8);
    assert(out@ =~= hex_fixed(twos_complement_u32(v), 8));
    out
}

fn char_digit(c: char) -> (r: Option<u128>)
    ensures
        match r {
            Some(d) => is_digit(c) && d == digit_value(c) && d < 10,
            None => !is_digit(c),
        },
{
    if '0' <= c && c <= '9' {
        Some((c as u32 - '0' as u32) as u128)
    } else {
        None
    }
}

/// `str::parse::<isize>` on the characters `s`.
pub fn parse_isize(s: &Vec<char>) -> (r: Option<isize>)
    ensures
        match r {
            Some(v) => parse_isize_spec(s@) == Some(v as int),
            None => parse_isize_spec(s@) is None,
        },
{
    let n = s.len();
    let neg = n > 0 && s[0] == '-';
    let start: usize = if n > 0 && (s[0] == '-' || s[0] == '+') {
        1
    } else {
        0
    };
    let ghost body = s@.subrange(start as int, n as int);
    proof {
        if start == 1 {
            assert(body =~= s@.drop_first());
        } else {
            assert(body =~= s@);
        }
    }
    if start == n {
        assert(body.len() == 0);
        assert(parse_isize_spec(s@) is None);
        return None;
    }
    let limit: u128 = 0x1_0000_0000_0000_0000;
    let mut acc: u128 = 0;
    let mut i: usize = start;
    proof {
        assert(body.take(0) =~= Seq::<char>::empty());
    }
    while i < n
        invariant
            start <= i <= n,
            n == s.len(),
            body == s@.subrange(start as int, n as int),
            all_digits(body.take(i - start)),
            digits_value(body.take(i - start)) <= limit ==> acc == digits_value(
                body.take(i - start),
            ),
            digits_value(body.take(i - start)) > limit ==> acc == limit + 1,
            acc <= limit + 1,
            limit == 0x1_0000_0000_0000_0000u128,
            start == (if n > 0 && (s@[0] == '-' || s@[0] == '+') { 1usize } else { 0usize }),
            neg == (n > 0 && s@[0] == '-'),
        decreases n - i,
    {
        let d = char_digit(s[i]);
        match d {
            None => {
                proof {
                    assert(body[i - start] == s@[i as int]);
                    assert(!all_digits(body));
                }
                return None;
            },
            Some(d) => {
                let ghost k = (i - start) as int;
                proof {
                    assert(body.take(k + 1).drop_last() =~= body.take(k));
                    assert(body.take(k + 1).last() == s@[i as int]);
                    assert(digits_value(body.take(k + 1)) == digits_value(body.take(k)) * 10
                        + d);
                    assert forall|j: int| 0 <= j < k + 1 implies is_digit(
                        #[trigger] body.take(k + 1)[j],
                    ) by {
                        if j < k {
                            assert(body.take(k + 1)[j] == body.take(k)[j]);
                        }
                    }
                }
                if acc <= limit {
                    acc = acc * 10 + d;
                    if acc > limit {
                        acc = limit + 1;
                    }
                } else {
                    proof {
                        assert(digits_value(body.take(k)) > limit);
                        assert(digits_value(body.take(k)) * 10 + d > limit) by (nonlinear_arith)
                            requires
                                digits_value(body.take(k)) > limit,
                                d >= 0,
                        ;
                    }
                }
            },
        }
        i = i + 1;
    }
    proof {
        assert(body.take(n - start) =~= body);
    }
    let max: u128 = isize::MAX as u128;
    if neg {
        if acc <= max + 1 {
            let v: i128 = 0i128 - (acc as i128);
            Some(v as isize)
        } else {
            None
        }
    } else {
        if acc <= max {
            Some(acc as isize)
        } else {
            None
        }
    }
}

// ---------------------------------------------------------------------------
// Laws
// ---------------------------------------------------------------------------

proof fn lemma_digit_char(d: nat)
    requires
        d < 10,
    ensures
        is_digit(digit_char(d)),
        digit_value(digit_char(d)) == d,
{
}

/// A decimal numeral is made of digits and reads back as the number it was
/// made from.
pub proof fn lemma_decimal_digits(n: nat)
    ensures
        all_digits(decimal(n)),
        digits_value(decimal(n)) == n,
        decimal(n).len() >= 1,
    decreases n,
{
    if n < 10 {
        lemma_digit_char(n);
        let s = decimal(n);
        assert(s.drop_last() =~= Seq::<char>::empty());
        assert(digits_value(s) == digits_value(s.drop_last()) * 10 + digit_value(s.last()));
    } else {
        lemma_decimal_digits(n / 10);
        lemma_digit_char(n % 10);
        let s = decimal(n);
        assert(s.drop_last() =~= decimal(n / 10));
        assert(s.last() == digit_char(n % 10));
        assert(digits_value(s) == digits_value(decimal(n / 10)) * 10 + digit_value(s.last()));
        assert((n / 10) * 10 + n % 10 == n);
        assert forall|i: int| 0 <= i < s.len() implies is_digit(#[trigger] s[i]) by {
            if i < s.len() - 1 {
                assert(s[i] == decimal(n / 10)[i]);
            }
        }
    }
}

/// Parsing what `Display` prints for an `isize` gives the value back.
pub proof fn law_parse_signed_decimal(i: isize)
    ensures
        parse_isize_spec(signed_decimal(i as int)) == Some(i as int),
{
    let s = signed_decimal(i as int);
    if i < 0 {
        lemma_decimal_digits((-i) as nat);
        assert(s.drop_first() =~= decimal((-i) as nat));
    } else {
        lemma_decimal_digits(i as nat);
        let d = decimal(i as nat);
        assert(is_digit(d[0]));
    }
}

} // verus!
