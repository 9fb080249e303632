//! Hexadecimal digits, values of digit sequences, and hexadecimal rendering
//! of machine integers, as used by identifier parsing and status formatting.

use vstd::prelude::*;

verus! {

/// Value of one hexadecimal digit character; 16 marks a non-digit.
pub open spec fn hex_digit_value(c: char) -> nat {
    if c == '0' { 0 } else if c == '1' { 1 } else if c == '2' { 2 } else if c == '3' { 3 }
    else if c == '4' { 4 } else if c == '5' { 5 } else if c == '6' { 6 } else if c == '7' { 7 }
    else if c == '8' { 8 } else if c == '9' { 9 }
    else if c == 'a' || c == 'A' { 10 } else if c == 'b' || c == 'B' { 11 }
    else if c == 'c' || c == 'C' { 12 } else if c == 'd' || c == 'D' { 13 }
    else if c == 'e' || c == 'E' { 14 } else if c == 'f' || c == 'F' { 15 }
    else { 16 }
}

pub open spec fn is_hex_digit(c: char) -> bool {
    hex_digit_value(c) < 16
}

pub open spec fn all_hex_digits(s: Seq<char>) -> bool {
    forall|i: int| 0 <= i < s.len() ==> is_hex_digit(#[trigger] s[i])
}

/// Value of a sequence of hexadecimal digits, most significant first.
pub open spec fn hex_value(s: Seq<char>) -> nat
    decreases s.len(),
{
    if s.len() == 0 {
        0
    } else {
        hex_value(s.drop_last()) * 16 + hex_digit_value(s.last())
    }
}

/// The lower-case digit character for a value below 16.
pub open spec fn hex_char(n: nat) -> char {
    if n == 0 { '0' } else if n == 1 { '1' } else if n == 2 { '2' } else if n == 3 { '3' }
    else if n == 4 { '4' } else if n == 5 { '5' } else if n == 6 { '6' } else if n == 7 { '7' }
    else if n == 8 { '8' } else if n == 9 { '9' } else if n == 10 { 'a' } else if n == 11 { 'b' }
    else if n == 12 { 'c' } else if n == 13 { 'd' } else if n == 14 { 'e' } else { 'f' }
}

pub open spec fn pow16(w: nat) -> nat
    decreases w,
{
    if w == 0 { 1 } else { 16 * pow16((w - 1) as nat) }
}

/// Fixed-width lower-case rendering of `v`, keeping only the low `width` digits.
pub open spec fn hex_render(v: nat, width: nat) -> Seq<char>
    decreases width,
{
    if width == 0 {
        Seq::<char>::empty()
    } else {
        hex_render(v / 16, (width - 1) as nat).push(hex_char(v % 16))
    }
}

/// Minimal-width lower-case rendering of `v`, as the host formats status codes.
pub open spec fn hex_render_min(v: nat) -> Seq<char>
    decreases v,
{
    if v < 16 {
        seq![hex_char(v)]
    } else {
        hex_render_min(v / 16).push(hex_char(v % 16))
    }
}

pub proof fn lemma_hex_char_value(n: nat)
    requires
        n < 16,
    ensures
        is_hex_digit(hex_char(n)),
        hex_digit_value(hex_char(n)) == n,
        hex_char(n) != '-',
        hex_char(n) != '{',
        hex_char(n) != '}',
{
}

pub proof fn lemma_hex_render_len(v: nat, width: nat)
    ensures
        hex_render(v, width).len() == width,
    decreases width,
{
    if width > 0 {
        lemma_hex_render_len(v / 16, (width - 1) as nat);
    }
}

pub proof fn lemma_hex_render_all_hex(v: nat, width: nat)
    ensures
        all_hex_digits(hex_render(v, width)),
    decreases width,
{
    if width > 0 {
        lemma_hex_render_all_hex(v / 16, (width - 1) as nat);
        let inner = hex_render(v / 16, (width - 1) as nat);
        let whole = hex_render(v, width);
        lemma_hex_char_value(v % 16);
        assert forall|i: int| 0 <= i < whole.len() implies is_hex_digit(#[trigger] whole[i]) by {
            if i < inner.len() {
                assert(whole[i] == inner[i]);
            }
        }
    }
}

pub proof fn lemma_hex_render_value(v: nat, width: nat)
    requires
        v < pow16(width),
    ensures
        hex_value(hex_render(v, width)) == v,
    decreases width,
{
    if width == 0 {
        assert(pow16(0) == 1);
    } else {
        let q = v / 16;
        assert(q < pow16((width - 1) as nat)) by {
            if q >= pow16((width - 1) as nat) {
                assert(v >= q * 16) by (nonlinear_arith)
                    requires q == v / 16,
                ;
                assert(q * 16 >= pow16((width - 1) as nat) * 16) by (nonlinear_arith)
                    requires q >= pow16((width - 1) as nat),
                ;
            }
        }
        lemma_hex_render_value(q, (width - 1) as nat);
        let inner = hex_render(q, (width - 1) as nat);
        let whole = hex_render(v, width);
        lemma_hex_char_value(v % 16);
        assert(whole.drop_last() =~= inner);
        assert(hex_value(whole) == hex_value(inner) * 16 + (v % 16));
        assert(q * 16 + v % 16 == v) by (nonlinear_arith)
            requires q == v / 16,
        ;
    }
}

/// Appending one hexadecimal digit to the sequence multiplies its value by 16.
pub proof fn lemma_hex_value_push(s: Seq<char>, c: char)
    ensures
        hex_value(s.push(c)) == hex_value(s) * 16 + hex_digit_value(c),
{
    assert(s.push(c).drop_last() =~= s);
    assert(s.push(c).last() == c);
}

/// The value of a digit sequence is at least the value of any of its prefixes.
pub proof fn lemma_hex_value_prefix_le(s: Seq<char>, i: int)
    requires
        0 <= i <= s.len(),
    ensures
        hex_value(s.subrange(0, i)) <= hex_value(s),
    decreases s.len() - i,
{
    if i < s.len() {
        lemma_hex_value_prefix_le(s, i + 1);
        let p = s.subrange(0, i);
        let q = s.subrange(0, i + 1);
        assert(q.drop_last() =~= p);
        assert(hex_value(q) == hex_value(p) * 16 + hex_digit_value(q.last()));
        assert(hex_value(p) * 16 >= hex_value(p)) by (nonlinear_arith);
    } else {
        assert(s.subrange(0, i) =~= s);
    }
}

/// Relies on String::push, documented to append the given character.
#[verifier::external_body]
pub fn push_char(s: &mut String, c: char)
    ensures
        final(s)@ == old(s)@.push(c),
{
    s.push(c);
}

fn hex_digit_char(n: u8) -> (c: char)
    requires
        n < 16,
    ensures
        c == hex_char(n as nat),
{
    match n {
        0 => '0',
        1 => '1',
        2 => '2',
        3 => '3',
        4 => '4',
        5 => '5',
        6 => '6',
        7 => '7',
        8 => '8',
        9 => '9',
        10 => 'a',
        11 => 'b',
        12 => 'c',
        13 => 'd',
        14 => 'e',
        _ => 'f',
    }
}

/// Append the fixed-width lower-case hexadecimal form of `v` to `out`.
pub fn append_hex_fixed(out: &mut String, v: u32, width: u8)
    ensures
        final(out)@ == old(out)@ + hex_render(v as nat, width as nat),
    decreases width,
{
    if width == 0 {
        assert(old(out)@ + hex_render(v as nat, 0) =~= old(out)@);
    } else {
        append_hex_fixed(out, v / 16, width - 1);
        let d: u8 = (v % 16) as u8;
        let c = hex_digit_char(d);
        push_char(out, c);
        assert((v as nat) / 16 == (v / 16) as nat);
        assert((v as nat) % 16 == d as nat);
        assert(old(out)@ + hex_render(v as nat, width as nat) =~= (old(out)@ + hex_render(
            (v / 16) as nat,
            (width - 1) as nat,
        )).push(hex_char(d as nat)));
    }
}

/// Append the minimal-width lower-case hexadecimal form of `v` to `out`,
/// as the host formats a status code.
pub fn append_hex_min(out: &mut String, v: u32)
    ensures
        final(out)@ == old(out)@ + hex_render_min(v as nat),
    decreases v,
{
    if v < 16 {
        let c = hex_digit_char(v as u8);
        push_char(out, c);
        assert(old(out)@ + hex_render_min(v as nat) =~= old(out)@.push(hex_char(v as nat)));
    } else {
        append_hex_min(out, v / 16);
        let d: u8 = (v % 16) as u8;
        let c = hex_digit_char(d);
        push_char(out, c);
        assert(old(out)@ + hex_render_min(v as nat) =~= (old(out)@ + hex_render_min(
            (v / 16) as nat,
        )).push(hex_char(d as nat)));
    }
}

/// Exec form of `hex_digit_value`: `None` for a non-digit.
pub fn hex_digit_of(c: char) -> (r: Option<u8>)
    ensures
        match r {
            Some(d) => is_hex_digit(c) && d as nat == hex_digit_value(c),
            None => !is_hex_digit(c),
        },
{
    match c {
        '0' => Some(0),
        '1' => Some(1),
        '2' => Some(2),
        '3' => Some(3),
        '4' => Some(4),
        '5' => Some(5),
        '6' => Some(6),
        '7' => Some(7),
        '8' => Some(8),
        '9' => Some(9),
        'a' | 'A' => Some(10),
        'b' | 'B' => Some(11),
        'c' | 'C' => Some(12),
        'd' | 'D' => Some(13),
        'e' | 'E' => Some(14),
        'f' | 'F' => Some(15),
        _ => None,
    }
}

} // verus!
