//! Text colours: GDI's 0x00BBGGRR against the dialog's `#RRGGBB`.

use vstd::prelude::*;
use crate::text::{chars_of, trim, trim_bounds, push_char};

verus! {

/// An ASCII hexadecimal digit, either case.
pub open spec fn is_hex_digit(c: char) -> bool {
    ||| 48 <= (c as int) <= 57
    ||| 65 <= (c as int) <= 70
    ||| 97 <= (c as int) <= 102
}

/// The value of the hexadecimal digit `c`.
pub open spec fn hex_digit_value(c: char) -> int {
    if (c as int) <= 57 {
        (c as int) - 48
    } else if (c as int) <= 70 {
        (c as int) - 55
    } else {
        (c as int) - 87
    }
}

pub open spec fn all_hex(s: Seq<char>) -> bool {
    forall|i: int| 0 <= i < s.len() ==> is_hex_digit(#[trigger] s[i])
}

/// The number that the hexadecimal digits `s` write.
pub open spec fn hex_value(s: Seq<char>) -> int
    decreases s.len(),
{
    if s.len() == 0 {
        0
    } else {
        hex_value(s.drop_last()) * 16 + hex_digit_value(s.last())
    }
}

/// The digits of a colour as typed: the trimmed text without one leading
/// `#`.
pub open spec fn color_digits(s: Seq<char>) -> Seq<char> {
    let t = trim(s);
    if t.len() > 0 && t[0] == '#' {
        t.drop_first()
    } else {
        t
    }
}

/// The colour that `s` holds: once trimmed, `#RRGGBB` or `RRGGBB` with six
/// hexadecimal digits in either case; `None` for any other text.
pub open spec fn parsed_color(s: Seq<char>) -> Option<u32> {
    let d = color_digits(s);
    if d.len() == 6 && all_hex(d) {
        Some(hex_value(d) as u32)
    } else {
        None
    }
}

/// `c` (0x00RRGGBB) with its first and third bytes swapped, giving
/// 0x00BBGGRR; the top byte is dropped.
pub open spec fn swapped_rgb(c: u32) -> u32 {
    ((c % 256) * 65536 + ((c / 256) % 256) * 256 + (c / 65536) % 256) as u32
}

/// 16 to the power `k`.
pub open spec fn pow16(k: nat) -> nat
    decreases k,
{
    if k == 0 {
        1
    } else {
        16 * pow16((k - 1) as nat)
    }
}

proof fn lemma_pow16_small(k: nat)
    requires
        k <= 5,
    ensures
        pow16(k) <= 0x100000,
{
    reveal_with_fuel(pow16, 6);
}

fn hex_digit_of(c: char) -> (r: u32)
    requires
        is_hex_digit(c),
    ensures
        r == hex_digit_value(c),
{
    let n = c as u32;
    if n <= 57 {
        n - 48
    } else if n <= 70 {
        n - 55
    } else {
        n - 87
    }
}

fn is_hex(c: char) -> (r: bool)
    ensures
        r == is_hex_digit(c),
{
    let n = c as u32;
    (48 <= n && n <= 57) || (65 <= n && n <= 70) || (97 <= n && n <= 102)
}

/// The value of the hexadecimal digits `v[lo..hi]` (at most six), if all
/// are digits.
fn hex_run(v: &Vec<char>, lo: usize, hi: usize) -> (r: Option<u32>)
    requires
        lo <= hi <= v@.len(),
        hi - lo <= 6,
    ensures
        match r {
            Some(n) => all_hex(v@.subrange(lo as int, hi as int)) && n == hex_value(v@.subrange(lo as int, hi as int)),
            None => !all_hex(v@.subrange(lo as int, hi as int)),
        },
{
    let ghost s = v@.subrange(lo as int, hi as int);
    let mut n: u32 = 0;
    let mut i = lo;
    while i < hi
        invariant
            lo <= i <= hi <= v@.len(),
            hi - lo <= 6,
            s == v@.subrange(lo as int, hi as int),
            all_hex(s.take(i - lo)),
            n == hex_value(s.take(i - lo)),
            n < pow16((i - lo) as nat),
        decreases hi - i,
    {
        if !is_hex(v[i]) {
            assert(s[i - lo] == v@[i as int]);
            return None;
        }
        assert(s.take(i - lo + 1).drop_last() =~= s.take(i - lo));
        assert(s.take(i - lo + 1).last() == v@[i as int]);
        proof {
            lemma_pow16_small((i - lo) as nat);
            assert(pow16((i - lo + 1) as nat) == 16 * pow16((i - lo) as nat));
        }
        n = n * 16 + hex_digit_of(v[i]);
        i = i + 1;
    }
    assert(s.take(hi - lo) =~= s);
    Some(n)
}

/// The colour typed in `s`, as `parsed_color` says.
pub fn parse_hex_color(s: &str) -> (r: Option<u32>)
    ensures
        r == parsed_color(s@),
{
    let v = chars_of(s);
    let n = v.len();
    let (a, b) = trim_bounds(&v, 0, n);
    assert(v@.subrange(0, n as int) =~= s@);
    let ghost t = v@.subrange(a as int, b as int);
    let mut i = a;
    if i < b && v[i] == '#' {
        i = i + 1;
        assert(t.drop_first() =~= v@.subrange(i as int, b as int));
    }
    assert(color_digits(s@) =~= v@.subrange(i as int, b as int));
    if b - i != 6 {
        return None;
    }
    hex_run(&v, i, b)
}

/// `c` with its first and third bytes swapped (`swapped_rgb`): RGB to
/// GDI's BGR and back.
pub fn rgb_to_bgr(c: u32) -> (r: u32)
    ensures
        r == swapped_rgb(c),
{
    let r = c & 0xff;
    let g = (c >> 8) & 0xff;
    let b = (c >> 16) & 0xff;
    let out = (r << 16) | (g << 8) | b;
    assert(out == ((c % 256) * 65536 + ((c / 256) % 256) * 256 + (c / 65536) % 256)) by (bit_vector)
        requires
            r == c & 0xff,
            g == (c >> 8) & 0xff,
            b == (c >> 16) & 0xff,
            out == (r << 16) | (g << 8) | b,
    ;
    out
}

/// Swapping the outer bytes twice gives back any colour of three bytes.
pub proof fn lemma_swap_twice(c: u32)
    requires
        c < 0x1000000,
    ensures
        swapped_rgb(swapped_rgb(c)) == c,
{
    assert(((((c % 256) * 65536 + ((c / 256) % 256) * 256 + (c / 65536) % 256) % 256) * 65536
        + (((((c % 256) * 65536 + ((c / 256) % 256) * 256 + (c / 65536) % 256)) / 256) % 256) * 256
        + ((((c % 256) * 65536 + ((c / 256) % 256) * 256 + (c / 65536) % 256)) / 65536) % 256) == c)
        by (bit_vector)
        requires
            c < 0x1000000,
    ;
}

/// The uppercase hexadecimal digit for `d` (0 to 15).
pub open spec fn hex_char(d: int) -> char {
    if d < 10 {
        ((48 + d) as u8) as char
    } else {
        ((55 + d) as u8) as char
    }
}

/// `n` as six uppercase hexadecimal digits (`{:06X}` for `n` below 2^24).
pub open spec fn hex6(n: u32) -> Seq<char> {
    seq![
        hex_char(((n / 0x100000) % 16) as int),
        hex_char(((n / 0x10000) % 16) as int),
        hex_char(((n / 0x1000) % 16) as int),
        hex_char(((n / 0x100) % 16) as int),
        hex_char(((n / 0x10) % 16) as int),
        hex_char((n % 16) as int),
    ]
}

fn hex_char_of(d: u32) -> (c: char)
    requires
        d < 16,
    ensures
        c == hex_char(d as int),
{
    if d < 10 {
        ((48 + d) as u8) as char
    } else {
        ((55 + d) as u8) as char
    }
}

/// The text shown for the stored GDI colour `c`: `#` and the six
/// hexadecimal digits of its RGB form.
pub open spec fn color_text(c: u32) -> Seq<char> {
    seq!['#'] + hex6(swapped_rgb(c % 0x1000000))
}

/// The colour box's text for the stored GDI colour `font_color`
/// (`color_text`).
pub fn color_hex_text(font_color: u32) -> (r: String)
    ensures
        r@ == color_text(font_color),
{
    let rgb = rgb_to_bgr(font_color & 0xffffff);
    assert(font_color & 0xffffff == font_color % 0x1000000) by (bit_vector);
    let mut s = String::new();
    push_char(&mut s, '#');
    push_char(&mut s, hex_char_of((rgb / 0x100000) % 16));
    push_char(&mut s, hex_char_of((rgb / 0x10000) % 16));
    push_char(&mut s, hex_char_of((rgb / 0x1000) % 16));
    push_char(&mut s, hex_char_of((rgb / 0x100) % 16));
    push_char(&mut s, hex_char_of((rgb / 0x10) % 16));
    push_char(&mut s, hex_char_of(rgb % 16));
    assert(s@ =~= seq!['#'] + hex6(rgb));
    s
}


proof fn lemma_hex_char(d: int)
    requires
        0 <= d < 16,
    ensures
        is_hex_digit(hex_char(d)),
        hex_digit_value(hex_char(d)) == d,
        hex_char(d) != '#',
        !crate::text::is_white_space(hex_char(d)),
{
}

proof fn lemma_hex_value_six(s: Seq<char>)
    requires
        s.len() == 6,
    ensures
        hex_value(s) == ((((hex_digit_value(s[0]) * 16 + hex_digit_value(s[1])) * 16
            + hex_digit_value(s[2])) * 16 + hex_digit_value(s[3])) * 16 + hex_digit_value(s[4]))
            * 16 + hex_digit_value(s[5]),
{
    let s1 = s.drop_last();
    let s2 = s1.drop_last();
    let s3 = s2.drop_last();
    let s4 = s3.drop_last();
    let s5 = s4.drop_last();
    let s6 = s5.drop_last();
    assert(hex_value(s6) == 0);
    assert(s5.last() == s[0] && s4.last() == s[1] && s3.last() == s[2]);
    assert(s2.last() == s[3] && s1.last() == s[4] && s.last() == s[5]);
    assert(hex_value(s5) == hex_digit_value(s[0]));
    assert(hex_value(s4) == hex_value(s5) * 16 + hex_digit_value(s[1]));
    assert(hex_value(s3) == hex_value(s4) * 16 + hex_digit_value(s[2]));
    assert(hex_value(s2) == hex_value(s3) * 16 + hex_digit_value(s[3]));
    assert(hex_value(s1) == hex_value(s2) * 16 + hex_digit_value(s[4]));
}

proof fn lemma_six_digits(n: u32)
    requires
        n < 0x1000000,
    ensures
        ((((((n / 0x100000) % 16) * 16 + (n / 0x10000) % 16) * 16 + (n / 0x1000) % 16) * 16 + (n
            / 0x100) % 16) * 16 + (n / 0x10) % 16) * 16 + n % 16 == n,
{
    assert(((((((n / 0x100000) % 16) * 16 + (n / 0x10000) % 16) * 16 + (n / 0x1000) % 16) * 16 + (n
        / 0x100) % 16) * 16 + (n / 0x10) % 16) * 16 + n % 16 == n) by (bit_vector)
        requires
            n < 0x1000000,
    ;
}

/// The six digits written for a colour are hexadecimal and read back as it.
proof fn lemma_hex6(n: u32)
    requires
        n < 0x1000000,
    ensures
        hex6(n).len() == 6,
        all_hex(hex6(n)),
        hex_value(hex6(n)) == n,
        !crate::text::is_white_space(hex6(n)[5]),
{
    let h = hex6(n);
    lemma_hex_char(((n / 0x100000) % 16) as int);
    lemma_hex_char(((n / 0x10000) % 16) as int);
    lemma_hex_char(((n / 0x1000) % 16) as int);
    lemma_hex_char(((n / 0x100) % 16) as int);
    lemma_hex_char(((n / 0x10) % 16) as int);
    lemma_hex_char((n % 16) as int);
    lemma_hex_value_six(h);
    lemma_six_digits(n);
}

/// The colour box's text for a colour reads back as that colour: the text
/// shown for the stored GDI colour `c` parses to its RGB form, and swapping
/// that back gives the colour's low three bytes.
pub proof fn lemma_color_text_round_trip(c: u32)
    ensures
        parsed_color(color_text(c)) == Some(swapped_rgb(c % 0x1000000)),
        swapped_rgb(swapped_rgb(c % 0x1000000)) == c % 0x1000000,
{
    let n = swapped_rgb(c % 0x1000000);
    assert(n < 0x1000000);
    lemma_swap_twice(c % 0x1000000);
    let h = hex6(n);
    lemma_hex6(n);
    let text = seq!['#'] + h;
    assert(text[0] == '#');
    assert(text.last() == h[5]);
    crate::text::lemma_trim_trimmed(text);
    assert(text.drop_first() =~= h);
}

/// The hexadecimal digits are `0` to `9`, `A` to `F` and `a` to `f`, each
/// worth what it writes, in either case.
pub proof fn lemma_hex_digits(c: char)
    ensures
        is_hex_digit(c) <==> (c == '0' || c == '1' || c == '2' || c == '3' || c == '4' || c == '5' || c == '6' || c == '7' || c == '8' || c == '9' || c == 'A' || c == 'B' || c == 'C' || c == 'D' || c == 'E' || c == 'F' || c == 'a' || c == 'b' || c == 'c' || c == 'd' || c == 'e' || c == 'f'),
        hex_digit_value('0') == 0,
        hex_digit_value('1') == 1,
        hex_digit_value('2') == 2,
        hex_digit_value('3') == 3,
        hex_digit_value('4') == 4,
        hex_digit_value('5') == 5,
        hex_digit_value('6') == 6,
        hex_digit_value('7') == 7,
        hex_digit_value('8') == 8,
        hex_digit_value('9') == 9,
        hex_digit_value('A') == 10,
        hex_digit_value('B') == 11,
        hex_digit_value('C') == 12,
        hex_digit_value('D') == 13,
        hex_digit_value('E') == 14,
        hex_digit_value('F') == 15,
        hex_digit_value('a') == 10,
        hex_digit_value('b') == 11,
        hex_digit_value('c') == 12,
        hex_digit_value('d') == 13,
        hex_digit_value('e') == 14,
        hex_digit_value('f') == 15,
{
}

/// The lower-case hexadecimal digit for `d` (0 to 15).
pub open spec fn hex_char_lower(d: int) -> char {
    if d < 10 {
        ((48 + d) as u8) as char
    } else {
        ((87 + d) as u8) as char
    }
}

/// `n` as six lower-case hexadecimal digits (`{:06x}` for `n` below 2^24).
pub open spec fn hex6_lower(n: u32) -> Seq<char> {
    seq![
        hex_char_lower(((n / 0x100000) % 16) as int),
        hex_char_lower(((n / 0x10000) % 16) as int),
        hex_char_lower(((n / 0x1000) % 16) as int),
        hex_char_lower(((n / 0x100) % 16) as int),
        hex_char_lower(((n / 0x10) % 16) as int),
        hex_char_lower((n % 16) as int),
    ]
}

proof fn lemma_hex_char_lower(d: int)
    requires
        0 <= d < 16,
    ensures
        is_hex_digit(hex_char_lower(d)),
        hex_digit_value(hex_char_lower(d)) == d,
        hex_char_lower(d) != '#',
        !crate::text::is_white_space(hex_char_lower(d)),
{
}

/// Any colour below 2^24 written as six lower-case hexadecimal digits,
/// with or without `#` in front, reads back as that colour, as it does in
/// upper case.
pub proof fn lemma_lower_case_colors(n: u32)
    requires
        n < 0x1000000,
    ensures
        parsed_color(seq!['#'] + hex6_lower(n)) == Some(n),
        parsed_color(hex6_lower(n)) == Some(n),
        parsed_color(seq!['#'] + hex6(n)) == Some(n),
        parsed_color(hex6(n)) == Some(n),
{
    let h = hex6_lower(n);
    lemma_hex_char_lower(((n / 0x100000) % 16) as int);
    lemma_hex_char_lower(((n / 0x10000) % 16) as int);
    lemma_hex_char_lower(((n / 0x1000) % 16) as int);
    lemma_hex_char_lower(((n / 0x100) % 16) as int);
    lemma_hex_char_lower(((n / 0x10) % 16) as int);
    lemma_hex_char_lower((n % 16) as int);
    lemma_hex_value_six(h);
    lemma_six_digits(n);
    let text = seq!['#'] + h;
    assert(text[0] == '#');
    assert(text.last() == h[5]);
    crate::text::lemma_trim_trimmed(text);
    assert(text.drop_first() =~= h);
    assert(h[0] != '#');
    crate::text::lemma_trim_trimmed(h);
    let u = hex6(n);
    lemma_hex6(n);
    lemma_hex_char(((n / 0x100000) % 16) as int);
    let ut = seq!['#'] + u;
    assert(ut[0] == '#');
    assert(ut.last() == u[5]);
    crate::text::lemma_trim_trimmed(ut);
    assert(ut.drop_first() =~= u);
    crate::text::lemma_trim_trimmed(u);
}

/// Swapping the outer bytes of a colour below 2^24 changes it exactly
/// when its red and blue bytes differ, and keeps its green byte.
pub proof fn lemma_swap_changes(c: u32)
    requires
        c < 0x1000000,
    ensures
        (swapped_rgb(c) == c) <==> (c % 256 == c / 65536),
        (swapped_rgb(c) / 256) % 256 == (c / 256) % 256,
        swapped_rgb(c) % 256 == c / 65536,
        swapped_rgb(c) / 65536 == c % 256,
        swapped_rgb(c) < 0x1000000,
{
    let s = ((c % 256) * 65536 + ((c / 256) % 256) * 256 + (c / 65536) % 256) as u32;
    assert(swapped_rgb(c) == s);
    assert(((s == c) <==> (c % 256 == c / 65536)) && (s / 256) % 256 == (c / 256) % 256 && s % 256
        == c / 65536 && s / 65536 == c % 256 && s < 0x1000000) by (bit_vector)
        requires
            c < 0x1000000,
            s == ((c % 256) * 65536 + ((c / 256) % 256) * 256 + (c / 65536) % 256) as u32,
    ;
}

} // verus!
