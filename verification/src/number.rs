//! Decimal and hexadecimal numbers in text: what `str::parse` accepts for
//! the integer types, and how integers are written out.

use vstd::prelude::*;
use crate::text::push_char;

verus! {

/// An ASCII decimal digit.
pub open spec fn is_digit(c: char) -> bool {
    48 <= (c as int) <= 57
}

/// The value of the decimal digit `c`.
pub open spec fn digit_value(c: char) -> int {
    (c as int) - 48
}

pub open spec fn all_digits(s: Seq<char>) -> bool {
    forall|i: int| 0 <= i < s.len() ==> is_digit(#[trigger] s[i])
}

/// The number that the decimal digits `s` write.
pub open spec fn digits_value(s: Seq<char>) -> int
    decreases s.len(),
{
    if s.len() == 0 {
        0
    } else {
        digits_value(s.drop_last()) * 10 + digit_value(s.last())
    }
}

/// The integer that `s` writes in the syntax that `str::parse` accepts for
/// a signed integer type: an optional `+` or `-`, then one or more decimal
/// digits; `None` for any other text.
pub open spec fn signed_literal(s: Seq<char>) -> Option<int> {
    if s.len() > 0 && (s[0] == '+' || s[0] == '-') {
        let d = s.drop_first();
        if d.len() > 0 && all_digits(d) {
            Some(if s[0] == '-' { -digits_value(d) } else { digits_value(d) })
        } else {
            None
        }
    } else if s.len() > 0 && all_digits(s) {
        Some(digits_value(s))
    } else {
        None
    }
}

/// As `signed_literal`, for an unsigned integer type: no `-` sign.
pub open spec fn unsigned_literal(s: Seq<char>) -> Option<int> {
    if s.len() > 0 && s[0] == '+' {
        let d = s.drop_first();
        if d.len() > 0 && all_digits(d) {
            Some(digits_value(d))
        } else {
            None
        }
    } else if s.len() > 0 && all_digits(s) {
        Some(digits_value(s))
    } else {
        None
    }
}

/// What `s.parse::<i32>()` gives, as an `Option`.
pub open spec fn parsed_i32(s: Seq<char>) -> Option<i32> {
    match signed_literal(s) {
        Some(v) => if i32::MIN <= v <= i32::MAX { Some(v as i32) } else { None },
        None => None,
    }
}

/// What `s.parse::<u32>()` gives, as an `Option`.
pub open spec fn parsed_u32(s: Seq<char>) -> Option<u32> {
    match unsigned_literal(s) {
        Some(v) => if v <= u32::MAX { Some(v as u32) } else { None },
        None => None,
    }
}

/// What `s.parse::<isize>()` gives, as an `Option`.
pub open spec fn parsed_isize(s: Seq<char>) -> Option<isize> {
    match signed_literal(s) {
        Some(v) => if isize::MIN <= v <= isize::MAX { Some(v as isize) } else { None },
        None => None,
    }
}

proof fn lemma_digits_value_nonneg(s: Seq<char>)
    requires
        all_digits(s),
    ensures
        digits_value(s) >= 0,
    decreases s.len(),
{
    if s.len() > 0 {
        lemma_digits_value_nonneg(s.drop_last());
    }
}

/// A longer run of digits writes at least the number its prefix writes.
proof fn lemma_digits_value_prefix(s: Seq<char>, i: int)
    requires
        all_digits(s),
        0 <= i <= s.len(),
    ensures
        digits_value(s) >= digits_value(s.take(i)),
    decreases s.len(),
{
    if i < s.len() {
        assert(s.take(i) =~= s.drop_last().take(i));
        lemma_digits_value_prefix(s.drop_last(), i);
        lemma_digits_value_nonneg(s.drop_last());
    } else {
        assert(s.take(i) =~= s);
    }
}

/// The value of the digits `v[lo..hi]`, when they are one or more decimal
/// digits and the value is at most 2^64; `None` when they are not all
/// digits, are none, or write a larger number.
fn digits_upto(v: &Vec<char>, lo: usize, hi: usize) -> (r: Option<u128>)
    requires
        lo <= hi <= v@.len(),
    ensures
        ({
            let s = v@.subrange(lo as int, hi as int);
            match r {
                Some(n) => s.len() > 0 && all_digits(s) && n == digits_value(s) && n
                    <= 0x1_0000_0000_0000_0000,
                None => !(s.len() > 0 && all_digits(s) && digits_value(s)
                    <= 0x1_0000_0000_0000_0000),
            }
        }),
{
    let ghost s = v@.subrange(lo as int, hi as int);
    if lo == hi {
        return None;
    }
    let mut n: u128 = 0;
    let mut i = lo;
    while i < hi
        invariant
            lo <= i <= hi <= v@.len(),
            s == v@.subrange(lo as int, hi as int),
            all_digits(s.take(i - lo)),
            n == digits_value(s.take(i - lo)),
            n <= 0x1_0000_0000_0000_0000,
        decreases hi - i,
    {
        let c = v[i];
        if !('0' <= c && c <= '9') {
            assert(!is_digit(s[i - lo]));
            return None;
        }
        let d = (c as u32 - '0' as u32) as u128;
        assert(s.take(i - lo + 1).drop_last() =~= s.take(i - lo));
        assert(s.take(i - lo + 1).last() == c);
        let m = n * 10 + d;
        if m > 0x1_0000_0000_0000_0000 {
            proof {
                assert(digits_value(s.take(i - lo + 1)) == m);
                if all_digits(s) {
                    lemma_digits_value_prefix(s, i - lo + 1);
                }
            }
            return None;
        }
        n = m;
        i = i + 1;
    }
    assert(s.take(hi - lo) =~= s);
    Some(n)
}

/// The sign and digits of `v[lo..hi]` read as `signed_literal` (when
/// `signed`) or `unsigned_literal` says, as long as the value's size is at
/// most 2^64.
fn literal_upto(v: &Vec<char>, lo: usize, hi: usize, signed: bool) -> (r: Option<i128>)
    requires
        lo <= hi <= v@.len(),
    ensures
        ({
            let s = v@.subrange(lo as int, hi as int);
            let lit = if signed { signed_literal(s) } else { unsigned_literal(s) };
            match r {
                Some(n) => lit == Some(n as int) && -0x1_0000_0000_0000_0000 <= n
                    <= 0x1_0000_0000_0000_0000,
                None => match lit {
                    Some(x) => x < -0x1_0000_0000_0000_0000 || x > 0x1_0000_0000_0000_0000,
                    None => true,
                },
            }
        }),
{
    let ghost s = v@.subrange(lo as int, hi as int);
    if lo < hi && (v[lo] == '+' || (signed && v[lo] == '-')) {
        assert(s.drop_first() =~= v@.subrange(lo + 1, hi as int));
        match digits_upto(v, lo + 1, hi) {
            Some(n) => {
                if v[lo] == '-' {
                    Some(-(n as i128))
                } else {
                    Some(n as i128)
                }
            },
            None => None,
        }
    } else {
        proof {
            if !signed && s.len() > 0 && s[0] == '-' {
                assert(!is_digit(s[0]));
            }
        }
        match digits_upto(v, lo, hi) {
            Some(n) => Some(n as i128),
            None => None,
        }
    }
}

/// `v[lo..hi].parse::<i32>()`, as an `Option`.
pub fn parse_i32_range(v: &Vec<char>, lo: usize, hi: usize) -> (r: Option<i32>)
    requires
        lo <= hi <= v@.len(),
    ensures
        r == parsed_i32(v@.subrange(lo as int, hi as int)),
{
    match literal_upto(v, lo, hi, true) {
        Some(n) => if -2147483648 <= n && n <= 2147483647 { Some(n as i32) } else { None },
        None => None,
    }
}

/// `v[lo..hi].parse::<u32>()`, as an `Option`.
pub fn parse_u32_range(v: &Vec<char>, lo: usize, hi: usize) -> (r: Option<u32>)
    requires
        lo <= hi <= v@.len(),
    ensures
        r == parsed_u32(v@.subrange(lo as int, hi as int)),
{
    proof {
        let s = v@.subrange(lo as int, hi as int);
        if s.len() > 0 && all_digits(s) {
            lemma_digits_value_nonneg(s);
        }
        if s.len() > 0 && all_digits(s.drop_first()) {
            lemma_digits_value_nonneg(s.drop_first());
        }
    }
    match literal_upto(v, lo, hi, false) {
        Some(n) => if 0 <= n && n <= 4294967295 { Some(n as u32) } else { None },
        None => None,
    }
}

/// `v[lo..hi].parse::<isize>()`, as an `Option`.
pub fn parse_isize_range(v: &Vec<char>, lo: usize, hi: usize) -> (r: Option<isize>)
    requires
        lo <= hi <= v@.len(),
    ensures
        r == parsed_isize(v@.subrange(lo as int, hi as int)),
{
    match literal_upto(v, lo, hi, true) {
        Some(n) => if isize::MIN as i128 <= n && n <= isize::MAX as i128 {
            Some(n as isize)
        } else {
            None
        },
        None => None,
    }
}


/// The decimal digit character for `d` (0 to 9).
pub open spec fn digit_char(d: int) -> char {
    if d <= 0 { '0' }
    else if d == 1 { '1' }
    else if d == 2 { '2' }
    else if d == 3 { '3' }
    else if d == 4 { '4' }
    else if d == 5 { '5' }
    else if d == 6 { '6' }
    else if d == 7 { '7' }
    else if d == 8 { '8' }
    else { '9' }
}

/// `n` in decimal, without leading zeros (`Display` of an unsigned integer).
pub open spec fn dec(n: nat) -> Seq<char>
    decreases n,
{
    if n < 10 {
        seq![digit_char(n as int)]
    } else {
        dec(n / 10).push(digit_char((n % 10) as int))
    }
}

/// `v` in decimal with a `-` when negative (`Display` of a signed integer).
pub open spec fn int_text(v: int) -> Seq<char> {
    if v < 0 {
        seq!['-'] + dec((-v) as nat)
    } else {
        dec(v as nat)
    }
}

/// `n` in decimal, padded with zeros to two digits (`{:02}`).
pub open spec fn dec2(n: nat) -> Seq<char> {
    if n < 10 {
        seq!['0'] + dec(n)
    } else {
        dec(n)
    }
}

fn digit_char_of(d: u64) -> (c: char)
    requires
        d < 10,
    ensures
        c == digit_char(d as int),
{
    if d == 0 { '0' }
    else if d == 1 { '1' }
    else if d == 2 { '2' }
    else if d == 3 { '3' }
    else if d == 4 { '4' }
    else if d == 5 { '5' }
    else if d == 6 { '6' }
    else if d == 7 { '7' }
    else if d == 8 { '8' }
    else { '9' }
}

/// Appends `n` in decimal to `s`.
pub fn push_dec(s: &mut String, n: u64)
    ensures
        final(s)@ == old(s)@ + dec(n as nat),
    decreases n,
{
    if n >= 10 {
        push_dec(s, n / 10);
    }
    push_char(s, digit_char_of(n % 10));
    proof {
        if n < 10 {
            assert(final(s)@ =~= old(s)@ + dec(n as nat));
        } else {
            assert(final(s)@ =~= old(s)@ + dec(n as nat));
        }
    }
}

/// Appends `v` in decimal, with a `-` when negative, to `s`.
pub fn push_int(s: &mut String, v: i64)
    ensures
        final(s)@ == old(s)@ + int_text(v as int),
{
    if v < 0 {
        push_char(s, '-');
        let m = (0i128 - v as i128) as u64;
        push_dec(s, m);
        assert(final(s)@ =~= old(s)@ + int_text(v as int));
    } else {
        push_dec(s, v as u64);
    }
}

/// Appends `n` in decimal, padded with zeros to two digits, to `s`.
pub fn push_dec2(s: &mut String, n: u64)
    ensures
        final(s)@ == old(s)@ + dec2(n as nat),
{
    if n < 10 {
        push_char(s, '0');
    }
    push_dec(s, n);
    assert(final(s)@ =~= old(s)@ + dec2(n as nat));
}

/// `v.to_string()` for an integer `v`.
pub fn int_to_string(v: i64) -> (s: String)
    ensures
        s@ == int_text(v as int),
{
    let mut s = String::new();
    push_int(&mut s, v);
    assert(s@ =~= int_text(v as int));
    s
}


proof fn lemma_digit_char(d: int)
    requires
        0 <= d < 10,
    ensures
        is_digit(digit_char(d)),
        digit_value(digit_char(d)) == d,
{
}

/// `dec(n)` is one or more digits that write `n`.
pub proof fn lemma_dec_digits(n: nat)
    ensures
        dec(n).len() > 0,
        all_digits(dec(n)),
        digits_value(dec(n)) == n,
    decreases n,
{
    if n < 10 {
        lemma_digit_char(n as int);
        assert(dec(n).drop_last() =~= Seq::<char>::empty());
        assert(digits_value(Seq::<char>::empty()) == 0);
        assert(digits_value(dec(n)) == digits_value(dec(n).drop_last()) * 10 + digit_value(dec(n).last()));
    } else {
        lemma_dec_digits(n / 10);
        lemma_digit_char((n % 10) as int);
        assert(dec(n).drop_last() =~= dec(n / 10));
        assert(dec(n).last() == digit_char((n % 10) as int));
        assert(n == (n / 10) * 10 + n % 10) by (nonlinear_arith);
        assert(digits_value(dec(n)) == digits_value(dec(n).drop_last()) * 10 + digit_value(dec(n).last()));
        assert forall|i: int| 0 <= i < dec(n).len() implies is_digit(#[trigger] dec(n)[i]) by {
            if i < dec(n / 10).len() {
                assert(dec(n)[i] == dec(n / 10)[i]);
            }
        }
    }
}

/// Reading back an integer written in decimal gives the integer.
pub proof fn lemma_int_text_parses(v: int)
    ensures
        signed_literal(int_text(v)) == Some(v),
{
    if v < 0 {
        let m = (-v) as nat;
        lemma_dec_digits(m);
        assert(int_text(v).drop_first() =~= dec(m));
    } else {
        lemma_dec_digits(v as nat);
        assert(is_digit(dec(v as nat)[0]));
    }
}

/// A leading zero does not change the number that digits write.
proof fn lemma_leading_zero(d: Seq<char>)
    ensures
        digits_value(seq!['0'] + d) == digits_value(d),
    decreases d.len(),
{
    let z = seq!['0'] + d;
    if d.len() == 0 {
        assert(z.drop_last() =~= Seq::<char>::empty());
        assert(z.last() == '0');
        assert(digits_value(Seq::<char>::empty()) == 0);
        assert(digit_value('0') == 0);
    } else {
        lemma_leading_zero(d.drop_last());
        assert(z.drop_last() =~= seq!['0'] + d.drop_last());
        assert(z.last() == d.last());
    }
}

/// How `str::parse` reads signs and zeros: a `+` changes nothing, a `-`
/// negates (and makes an unsigned number fail), a sign alone or nothing at
/// all is no number, and leading zeros change nothing.
pub proof fn lemma_number_syntax(d: Seq<char>)
    requires
        d.len() > 0,
        all_digits(d),
    ensures
        signed_literal(d) == Some(digits_value(d)),
        signed_literal(seq!['+'] + d) == Some(digits_value(d)),
        signed_literal(seq!['-'] + d) == Some(-digits_value(d)),
        unsigned_literal(d) == Some(digits_value(d)),
        unsigned_literal(seq!['+'] + d) == Some(digits_value(d)),
        unsigned_literal(seq!['-'] + d) is None,
        signed_literal(seq!['0'] + d) == signed_literal(d),
        signed_literal(seq!['+']) is None,
        signed_literal(seq!['-']) is None,
        signed_literal(Seq::<char>::empty()) is None,
        unsigned_literal(Seq::<char>::empty()) is None,
        digits_value(d) >= 0,
{
    assert((seq!['+'] + d).drop_first() =~= d);
    assert((seq!['-'] + d).drop_first() =~= d);
    assert(!is_digit('-'));
    assert(!is_digit('+'));
    let z = seq!['0'] + d;
    assert(z[0] == '0');
    assert forall|i: int| 0 <= i < z.len() implies is_digit(#[trigger] z[i]) by {
        if i > 0 {
            assert(z[i] == d[i - 1]);
        }
    }
    lemma_leading_zero(d);
    lemma_digits_value_nonneg(d);
    assert(seq!['+'].drop_first() =~= Seq::<char>::empty());
    assert(seq!['-'].drop_first() =~= Seq::<char>::empty());
}

} // verus!
