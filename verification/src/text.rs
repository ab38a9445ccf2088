//! Small text routines with exact contracts: decimal rendering, character
//! replacement, column fitting and the display form of a timestamp.

use vstd::prelude::*;
use vstd::utf8::*;

verus! {

/// `String::push` appends exactly one character.
pub assume_specification[ String::push ](s: &mut String, ch: char)
    ensures
        final(s)@ == old(s)@.push(ch),
;

/// The character that writes the digit `d` in base ten.
pub open spec fn digit_char(d: nat) -> char
    recommends
        d < 10,
{
    if d == 0 {
        '0'
    } else if d == 1 {
        '1'
    } else if d == 2 {
        '2'
    } else if d == 3 {
        '3'
    } else if d == 4 {
        '4'
    } else if d == 5 {
        '5'
    } else if d == 6 {
        '6'
    } else if d == 7 {
        '7'
    } else if d == 8 {
        '8'
    } else {
        '9'
    }
}

/// The base-ten numeral of `n`, most significant digit first, without
/// leading zeros (`0` is written `"0"`).
pub open spec fn decimal(n: nat) -> Seq<char>
    decreases n,
{
    if n < 10 {
        seq![digit_char(n)]
    } else {
        decimal(n / 10).push(digit_char(n % 10))
    }
}

fn digit(d: u64) -> (c: char)
    requires
        d < 10,
    ensures
        c == digit_char(d as nat),
{
    if d == 0 {
        '0'
    } else if d == 1 {
        '1'
    } else if d == 2 {
        '2'
    } else if d == 3 {
        '3'
    } else if d == 4 {
        '4'
    } else if d == 5 {
        '5'
    } else if d == 6 {
        '6'
    } else if d == 7 {
        '7'
    } else if d == 8 {
        '8'
    } else {
        '9'
    }
}

/// Writes `n` in base ten.
pub fn decimal_string(n: u64) -> (s: String)
    ensures
        s@ == decimal(n as nat),
    decreases n,
{
    if n < 10 {
        let mut s = String::new();
        s.push(digit(n));
        assert(s@ =~= seq![digit_char(n as nat)]);
        s
    } else {
        let mut s = decimal_string(n / 10);
        s.push(digit(n % 10));
        s
    }
}

/// `s` with every occurrence of `from` turned into `to`.
pub open spec fn replaced(s: Seq<char>, from: char, to: char) -> Seq<char> {
    s.map_values(|c: char| if c == from { to } else { c })
}

/// Copies `s`, writing `to` wherever `from` stands.
pub fn replace_char(s: &str, from: char, to: char) -> (r: String)
    ensures
        r@ == replaced(s@, from, to),
{
    let n = s.unicode_len();
    let mut out = String::new();
    let mut i: usize = 0;
    while i < n
        invariant
            i <= n,
            n == s@.len(),
            out@ == replaced(s@, from, to).take(i as int),
        decreases n - i,
    {
        let c = s.get_char(i);
        let d = if c == from { to } else { c };
        out.push(d);
        assert(out@ =~= replaced(s@, from, to).take(i + 1));
        i += 1;
    }
    out
}

/// `s` followed by `tail`.
pub fn concat2(s: &str, tail: &str) -> (r: String)
    ensures
        r@ == s@ + tail@,
{
    let mut out = String::new();
    out.append(s);
    out.append(tail);
    assert(out@ =~= s@ + tail@);
    out
}

/// Three texts in a row.
pub fn concat3(a: &str, b: &str, c: &str) -> (r: String)
    ensures
        r@ == a@ + b@ + c@,
{
    let mut out = concat2(a, b);
    out.append(c);
    out
}

/// Four texts in a row.
pub fn concat4(a: &str, b: &str, c: &str, d: &str) -> (r: String)
    ensures
        r@ == a@ + b@ + c@ + d@,
{
    let mut out = concat3(a, b, c);
    out.append(d);
    out
}

/// Five texts in a row.
pub fn concat5(a: &str, b: &str, c: &str, d: &str, e: &str) -> (r: String)
    ensures
        r@ == a@ + b@ + c@ + d@ + e@,
{
    let mut out = concat4(a, b, c, d);
    out.append(e);
    out
}

/// A line of a report: a label, a value and a line feed.
pub open spec fn line_text(label: Seq<char>, value: Seq<char>) -> Seq<char> {
    label + value + "\n"@
}

/// Appends a line of a report to `out`.
pub fn push_line(out: &mut String, label: &str, value: &str)
    ensures
        final(out)@ == old(out)@ + line_text(label@, value@),
{
    out.append(label);
    out.append(value);
    out.append("\n");
    assert(out@ =~= old(out)@ + line_text(label@, value@));
}

/// How many bytes of a timestamp are shown: the length of
/// `YYYY-MM-DDTHH:MM:SS`.
pub const SHOWN_TIME_BYTES: usize = 19;

/// The part of a timestamp that is shown: its first nineteen bytes where
/// they end on a character boundary, else the whole text.
pub open spec fn time_prefix(stamp: Seq<char>) -> Seq<char> {
    let bytes = encode_utf8(stamp);
    if is_char_boundary(bytes, SHOWN_TIME_BYTES as int) {
        decode_utf8(bytes.subrange(0, SHOWN_TIME_BYTES as int))
    } else {
        stamp
    }
}

/// The display form of a timestamp: the shown part with the `T` between
/// date and time written as a space.
pub open spec fn shown_time_text(stamp: Seq<char>) -> Seq<char> {
    replaced(time_prefix(stamp), 'T', ' ')
}

/// Computes the display form of a timestamp.
pub fn shown_time(stamp: &str) -> (r: String)
    ensures
        r@ == shown_time_text(stamp@),
{
    if stamp.is_char_boundary(SHOWN_TIME_BYTES) {
        let (head, _) = stamp.split_at(SHOWN_TIME_BYTES);
        proof {
            encode_utf8_decode_utf8(head@);
        }
        replace_char(head, 'T', ' ')
    } else {
        replace_char(stamp, 'T', ' ')
    }
}

/// A timestamp that is plain ASCII and at least nineteen characters long is
/// shown by its first nineteen characters.
pub proof fn lemma_time_prefix_ascii(stamp: Seq<char>)
    requires
        is_ascii_chars(stamp),
        stamp.len() >= SHOWN_TIME_BYTES,
    ensures
        time_prefix(stamp) == stamp.take(SHOWN_TIME_BYTES as int),
{
    let bytes = encode_utf8(stamp);
    let head = stamp.take(SHOWN_TIME_BYTES as int);
    let rest = stamp.skip(SHOWN_TIME_BYTES as int);
    assert(stamp =~= head + rest);
    is_ascii_chars_concat(stamp, head, rest);
    is_ascii_chars_encode_utf8(stamp);
    is_ascii_chars_encode_utf8(head);
    assert(bytes.subrange(0, SHOWN_TIME_BYTES as int) =~= encode_utf8(head));
    encode_utf8_decode_utf8(head);
    encode_utf8_valid_utf8(stamp);
    lemma_ascii_boundary(stamp, SHOWN_TIME_BYTES as int);
}

/// In the encoding of ASCII text every index up to the length is a
/// character boundary.
proof fn lemma_ascii_boundary(s: Seq<char>, index: int)
    requires
        is_ascii_chars(s),
        0 <= index <= s.len(),
    ensures
        is_char_boundary(encode_utf8(s), index),
    decreases s.len(),
{
    let bytes = encode_utf8(s);
    encode_utf8_valid_utf8(s);
    is_ascii_chars_encode_utf8(s);
    if index != 0 {
        let rest = s.drop_first();
        assert(s =~= seq![s[0]] + rest);
        is_ascii_chars_concat(s, seq![s[0]], rest);
        encode_utf8_first_scalar(s);
        assert(bytes[0] == s[0] as u8);
        assert(is_leading_byte_width_1(bytes[0])) by {
            let b = bytes[0];
            assert(b < 128);
            assert(b & 0x80 == 0) by (bit_vector)
                requires
                    b < 128,
            ;
        }
        assert(length_of_first_scalar(bytes) == 1);
        assert(pop_first_scalar(bytes) =~= encode_utf8(rest));
        lemma_ascii_boundary(rest, index - 1);
    }
}

/// `s` cut down to its first `max` characters.
pub open spec fn clipped(s: Seq<char>, max: nat) -> Seq<char> {
    if s.len() <= max {
        s
    } else {
        s.take(max as int)
    }
}

/// `s` filled up with spaces on the right to `width` characters; a longer
/// text is left as it is.
pub open spec fn padded(s: Seq<char>, width: nat) -> Seq<char> {
    if s.len() >= width {
        s
    } else {
        s + Seq::new((width - s.len()) as nat, |i: int| ' ')
    }
}

/// A left-aligned column cell: the text, cut to the width where `clip` is
/// set, then filled up to the width.
pub open spec fn cell(s: Seq<char>, width: nat, clip: bool) -> Seq<char> {
    padded(if clip { clipped(s, width) } else { s }, width)
}

/// Lays `s` out as a left-aligned column cell of `width` characters.
pub fn fit_column(s: &str, width: usize, clip: bool) -> (r: String)
    ensures
        r@ == cell(s@, width as nat, clip),
{
    let len = s.unicode_len();
    let mut out = String::new();
    let mut have: usize = len;
    if clip && len > width {
        out.append(s.substring_char(0, width));
        have = width;
    } else {
        out.append(s);
    }
    let ghost body = out@;
    assert(body =~= if clip { clipped(s@, width as nat) } else { s@ });
    while have < width
        invariant
            have == out@.len(),
            body.len() <= have,
            have == body.len() || have <= width,
            out@ == body + Seq::new((have - body.len()) as nat, |i: int| ' '),
        decreases width - have,
    {
        out.push(' ');
        have += 1;
        assert(out@ =~= body + Seq::new((have - body.len()) as nat, |i: int| ' '));
    }
    assert(out@ =~= padded(body, width as nat));
    out
}

/// What `{:?}` writes for a path: the text between double quotes, with the
/// characters that need it escaped.
pub uninterp spec fn debug_form(path: Seq<char>) -> Seq<char>;

/// The `Debug` rendering of `std::path::Path`, as `format!("{:?}", ..)`
/// gives it. The contract only names the result: it is a function of the
/// path's text alone.
#[verifier::external_body]
pub(crate) fn quoted_path(path: &str) -> (r: String)
    ensures
        r@ == debug_form(path@),
{
    format!("{:?}", std::path::Path::new(path))
}

} // verus!
