//! Parsing and rendering of textual 16-byte identifiers: hyphen-delimited
//! hexadecimal groups with optional enclosing braces.

use vstd::prelude::*;
use vstd::string::*;
use crate::text::str_to_chars;
use crate::hexfmt::{
    all_hex_digits, append_hex_fixed, hex_digit_of, hex_digit_value, hex_render, hex_value,
    is_hex_digit, lemma_hex_char_value, lemma_hex_render_all_hex, lemma_hex_render_len,
    lemma_hex_render_value, lemma_hex_value_prefix_le, lemma_hex_value_push, pow16, push_char,
};

verus! {

/// A 16-byte component or interface identifier.
#[derive(Clone, Copy, Debug, PartialEq, Eq)]
pub struct Guid {
    pub data1: u32,
    pub data2: u16,
    pub data3: u16,
    pub data4: [u8; 8],
}

/// Why a textual identifier was rejected.
#[derive(Clone, Copy, Debug, PartialEq, Eq, Structural)]
pub enum FormatError {
    /// The text does not split into exactly five hyphen groups.
    InvalidFormat,
    /// The first group is not a hexadecimal number fitting four bytes.
    Data1,
    /// The second group is not a hexadecimal number fitting two bytes.
    Data2,
    /// The third group is not a hexadecimal number fitting two bytes.
    Data3,
    /// The fourth group does not start with a two-digit hexadecimal byte.
    Data4Byte0,
    /// The fourth group does not carry a second two-digit hexadecimal byte.
    Data4Byte1,
    /// The fifth group is not exactly twelve characters long.
    Data4Tail,
}

impl FormatError {
    pub open spec fn spec_message(self) -> Seq<char> {
        match self {
            FormatError::InvalidFormat => "Invalid GUID format"@,
            FormatError::Data1 => "Failed to parse Data1"@,
            FormatError::Data2 => "Failed to parse Data2"@,
            FormatError::Data3 => "Failed to parse Data3"@,
            FormatError::Data4Byte0 => "Failed to parse Data4[0]"@,
            FormatError::Data4Byte1 => "Failed to parse Data4[1]"@,
            FormatError::Data4Tail => "Invalid Data4 format"@,
        }
    }

    /// The failure text of this rejection.
    pub fn message(&self) -> (r: String)
        ensures
            r@ == self.spec_message(),
    {
        match self {
            FormatError::InvalidFormat => "Invalid GUID format".to_owned(),
            FormatError::Data1 => "Failed to parse Data1".to_owned(),
            FormatError::Data2 => "Failed to parse Data2".to_owned(),
            FormatError::Data3 => "Failed to parse Data3".to_owned(),
            FormatError::Data4Byte0 => "Failed to parse Data4[0]".to_owned(),
            FormatError::Data4Byte1 => "Failed to parse Data4[1]".to_owned(),
            FormatError::Data4Tail => "Invalid Data4 format".to_owned(),
        }
    }
}

pub open spec fn is_brace(c: char) -> bool {
    c == '{' || c == '}'
}

pub open spec fn trim_start_braces(s: Seq<char>) -> Seq<char>
    decreases s.len(),
{
    if s.len() > 0 && is_brace(s[0]) {
        trim_start_braces(s.drop_first())
    } else {
        s
    }
}

pub open spec fn trim_end_braces(s: Seq<char>) -> Seq<char>
    decreases s.len(),
{
    if s.len() > 0 && is_brace(s.last()) {
        trim_end_braces(s.drop_last())
    } else {
        s
    }
}

/// Enclosing braces stripped from both ends, as the codec accepts them.
pub open spec fn trim_braces(s: Seq<char>) -> Seq<char> {
    trim_end_braces(trim_start_braces(s))
}

/// The hyphen-separated groups of `s`; always at least one group.
pub open spec fn split_dash(s: Seq<char>) -> Seq<Seq<char>>
    decreases s.len(),
{
    if s.len() == 0 {
        seq![Seq::<char>::empty()]
    } else if s[0] == '-' {
        seq![Seq::<char>::empty()] + split_dash(s.drop_first())
    } else {
        let rest = split_dash(s.drop_first());
        rest.update(0, seq![s[0]] + rest[0])
    }
}

pub proof fn lemma_split_dash_len(s: Seq<char>)
    ensures
        split_dash(s).len() >= 1,
    decreases s.len(),
{
    if s.len() > 0 {
        lemma_split_dash_len(s.drop_first());
    }
}

/// A sequence without hyphens is a single group.
pub proof fn lemma_split_dash_no_dash(s: Seq<char>)
    requires
        forall|i: int| 0 <= i < s.len() ==> s[i] != '-',
    ensures
        split_dash(s) == seq![s],
    decreases s.len(),
{
    if s.len() == 0 {
        assert(split_dash(s) =~~= seq![s]);
    } else {
        lemma_split_dash_no_dash(s.drop_first());
        let rest = split_dash(s.drop_first());
        assert(rest == seq![s.drop_first()]);
        assert(seq![s[0]] + s.drop_first() =~= s);
        assert(split_dash(s) =~~= seq![s]);
    }
}

/// Splitting at the first hyphen: a hyphen-free prefix becomes the first group.
pub proof fn lemma_split_dash_concat(a: Seq<char>, rest: Seq<char>)
    requires
        forall|i: int| 0 <= i < a.len() ==> a[i] != '-',
    ensures
        split_dash(a + seq!['-'] + rest) == seq![a] + split_dash(rest),
    decreases a.len(),
{
    let s = a + seq!['-'] + rest;
    if a.len() == 0 {
        assert(s[0] == '-');
        assert(s.drop_first() =~= rest);
        assert(split_dash(s) =~~= seq![a] + split_dash(rest));
    } else {
        lemma_split_dash_concat(a.drop_first(), rest);
        assert(s[0] == a[0]);
        assert(s[0] != '-');
        assert(s.drop_first() =~= a.drop_first() + seq!['-'] + rest);
        let inner = split_dash(s.drop_first());
        assert(inner == seq![a.drop_first()] + split_dash(rest));
        lemma_split_dash_len(rest);
        assert(inner[0] == a.drop_first());
        assert(seq![s[0]] + inner[0] =~= a);
        assert(split_dash(s) =~~= seq![a] + split_dash(rest));
    }
}

/// Whether a group is a non-empty all-hexadecimal sequence whose value fits `bound`.
pub open spec fn group_ok(s: Seq<char>, bound: nat) -> bool {
    s.len() > 0 && all_hex_digits(s) && hex_value(s) <= bound
}

/// Value of a two-character hexadecimal pair, zero if either character is not
/// a digit.
pub open spec fn lenient_pair(c1: char, c2: char) -> nat {
    if is_hex_digit(c1) && is_hex_digit(c2) {
        hex_digit_value(c1) * 16 + hex_digit_value(c2)
    } else {
        0
    }
}

/// The parse of a textual identifier, stated over its character sequence.
///
/// Braces are stripped, the text must split into exactly five hyphen groups;
/// the first three groups are strict bounded hexadecimal numbers, the fourth
/// contributes its first two byte pairs strictly, and the fifth must be
/// exactly twelve characters, each byte pair falling back to zero when
/// malformed.
pub open spec fn spec_parse_guid(s: Seq<char>) -> Result<Guid, FormatError> {
    let gs = split_dash(trim_braces(s));
    if gs.len() != 5 {
        Err(FormatError::InvalidFormat)
    } else if !group_ok(gs[0], 0xFFFF_FFFF) {
        Err(FormatError::Data1)
    } else if !group_ok(gs[1], 0xFFFF) {
        Err(FormatError::Data2)
    } else if !group_ok(gs[2], 0xFFFF) {
        Err(FormatError::Data3)
    } else if !(gs[3].len() >= 2 && is_hex_digit(gs[3][0]) && is_hex_digit(gs[3][1])) {
        Err(FormatError::Data4Byte0)
    } else if !(gs[3].len() >= 4 && is_hex_digit(gs[3][2]) && is_hex_digit(gs[3][3])) {
        Err(FormatError::Data4Byte1)
    } else if gs[4].len() != 12 {
        Err(FormatError::Data4Tail)
    } else {
        Ok(Guid {
            data1: hex_value(gs[0]) as u32,
            data2: hex_value(gs[1]) as u16,
            data3: hex_value(gs[2]) as u16,
            data4: [
                (hex_digit_value(gs[3][0]) * 16 + hex_digit_value(gs[3][1])) as u8,
                (hex_digit_value(gs[3][2]) * 16 + hex_digit_value(gs[3][3])) as u8,
                lenient_pair(gs[4][0], gs[4][1]) as u8,
                lenient_pair(gs[4][2], gs[4][3]) as u8,
                lenient_pair(gs[4][4], gs[4][5]) as u8,
                lenient_pair(gs[4][6], gs[4][7]) as u8,
                lenient_pair(gs[4][8], gs[4][9]) as u8,
                lenient_pair(gs[4][10], gs[4][11]) as u8,
            ],
        })
    }
}

/// The standard hyphenated lower-case text form of an identifier.
pub open spec fn spec_render_guid(g: Guid) -> Seq<char> {
    hex_render(g.data1 as nat, 8) + seq!['-'] + hex_render(g.data2 as nat, 4) + seq!['-']
        + hex_render(g.data3 as nat, 4) + seq!['-'] + hex_render(g.data4[0] as nat, 2)
        + hex_render(g.data4[1] as nat, 2) + seq!['-'] + hex_render(g.data4[2] as nat, 2)
        + hex_render(g.data4[3] as nat, 2) + hex_render(g.data4[4] as nat, 2) + hex_render(
        g.data4[5] as nat,
        2,
    ) + hex_render(g.data4[6] as nat, 2) + hex_render(g.data4[7] as nat, 2)
}

fn skip_braces_front(chars: &Vec<char>, i: usize) -> (j: usize)
    requires
        i <= chars@.len(),
    ensures
        i <= j <= chars@.len(),
        trim_start_braces(chars@.subrange(i as int, chars@.len() as int)) == chars@.subrange(
            j as int,
            chars@.len() as int,
        ),
    decreases chars@.len() - i,
{
    let n = chars.len();
    if i < n && (chars[i] == '{' || chars[i] == '}') {
        assert(chars@.subrange(i as int, n as int).drop_first() =~= chars@.subrange(
            i + 1,
            n as int,
        ));
        skip_braces_front(chars, i + 1)
    } else {
        i
    }
}

fn skip_braces_back(chars: &Vec<char>, i: usize, j: usize) -> (k: usize)
    requires
        i <= j <= chars@.len(),
    ensures
        i <= k <= j,
        trim_end_braces(chars@.subrange(i as int, j as int)) == chars@.subrange(i as int, k as int),
    decreases j - i,
{
    if j > i && (chars[j - 1] == '{' || chars[j - 1] == '}') {
        assert(chars@.subrange(i as int, j as int).drop_last() =~= chars@.subrange(
            i as int,
            j - 1,
        ));
        skip_braces_back(chars, i, j - 1)
    } else {
        j
    }
}

fn split_dash_exec(chars: &Vec<char>, i: usize, j: usize) -> (groups: Vec<Vec<char>>)
    requires
        i <= j <= chars@.len(),
    ensures
        groups@.map_values(|g: Vec<char>| g@) == split_dash(
            chars@.subrange(i as int, j as int),
        ),
        groups@.len() >= 1,
    decreases j - i,
{
    let s = Ghost(chars@.subrange(i as int, j as int));
    if i == j {
        let mut groups: Vec<Vec<char>> = Vec::new();
        groups.push(Vec::new());
        assert(groups@.map_values(|g: Vec<char>| g@) =~~= split_dash(s@));
        groups
    } else {
        assert(s@.drop_first() =~= chars@.subrange(i + 1, j as int));
        let mut rest = split_dash_exec(chars, i + 1, j);
        let c = chars[i];
        assert(s@[0] == c);
        if c == '-' {
            rest.insert(0, Vec::new());
            assert(rest@.map_values(|g: Vec<char>| g@) =~~= split_dash(s@));
            rest
        } else {
            let mut first = rest.remove(0);
            first.insert(0, c);
            rest.insert(0, first);
            let ghost inner = split_dash(s@.drop_first());
            assert(rest@.map_values(|g: Vec<char>| g@) =~~= inner.update(
                0,
                seq![c] + inner[0],
            ));
            rest
        }
    }
}

/// Parse a non-empty all-hexadecimal group whose value is at most `bound`.
fn parse_hex_group(g: &Vec<char>, bound: u32) -> (r: Option<u32>)
    ensures
        match r {
            Some(v) => group_ok(g@, bound as nat) && v as nat == hex_value(g@),
            None => !group_ok(g@, bound as nat),
        },
{
    let n = g.len();
    if n == 0 {
        return None;
    }
    let mut acc: u64 = 0;
    let mut i: usize = 0;
    while i < n
        invariant
            i <= n,
            n == g@.len(),
            acc <= bound,
            acc as nat == hex_value(g@.subrange(0, i as int)),
            all_hex_digits(g@.subrange(0, i as int)),
        decreases n - i,
    {
        let c = g[i];
        match hex_digit_of(c) {
            None => {
                assert(!all_hex_digits(g@));
                return None;
            },
            Some(d) => {
                proof {
                    lemma_hex_value_push(g@.subrange(0, i as int), c);
                    assert(g@.subrange(0, i as int).push(c) =~= g@.subrange(0, i + 1));
                }
                let next: u64 = acc * 16 + (d as u64);
                if next > bound as u64 {
                    proof {
                        lemma_hex_value_prefix_le(g@, i + 1);
                    }
                    assert(hex_value(g@) > bound as nat);
                    return None;
                }
                acc = next;
                assert(all_hex_digits(g@.subrange(0, i + 1)));
                i = i + 1;
            },
        }
    }
    assert(g@.subrange(0, n as int) =~= g@);
    Some(acc as u32)
}

/// Value of the two-character pair, falling back to zero when malformed.
fn lenient_pair_of(c1: char, c2: char) -> (b: u8)
    ensures
        b as nat == lenient_pair(c1, c2),
{
    match (hex_digit_of(c1), hex_digit_of(c2)) {
        (Some(d1), Some(d2)) => d1 * 16 + d2,
        _ => 0,
    }
}

/// Parse a textual identifier into its 16-byte structured value.
///
/// The accepted shape and every rejection are exactly those of
/// `spec_parse_guid`; the function is total and never panics.
pub fn parse_guid(guid_str: &str) -> (r: Result<Guid, FormatError>)
    ensures
        r == spec_parse_guid(guid_str@),
{
    let chars = str_to_chars(guid_str);
    let n = chars.len();
    let start = skip_braces_front(&chars, 0);
    let end = skip_braces_back(&chars, start, n);
    assert(chars@.subrange(0, n as int) =~= chars@);
    assert(chars@.subrange(start as int, end as int) == trim_braces(guid_str@));
    let groups = split_dash_exec(&chars, start, end);
    let ghost gs = split_dash(trim_braces(guid_str@));
    assert(groups@.map_values(|g: Vec<char>| g@) == gs);
    if groups.len() != 5 {
        return Err(FormatError::InvalidFormat);
    }
    assert(groups@[0]@ == gs[0]);
    assert(groups@[1]@ == gs[1]);
    assert(groups@[2]@ == gs[2]);
    assert(groups@[3]@ == gs[3]);
    assert(groups@[4]@ == gs[4]);
    let data1 = match parse_hex_group(&groups[0], 0xFFFF_FFFF) {
        Some(v) => v,
        None => {
            return Err(FormatError::Data1);
        },
    };
    let data2 = match parse_hex_group(&groups[1], 0xFFFF) {
        Some(v) => v as u16,
        None => {
            return Err(FormatError::Data2);
        },
    };
    let data3 = match parse_hex_group(&groups[2], 0xFFFF) {
        Some(v) => v as u16,
        None => {
            return Err(FormatError::Data3);
        },
    };
    let g4 = &groups[3];
    if g4.len() < 2 {
        return Err(FormatError::Data4Byte0);
    }
    let b0 = match (hex_digit_of(g4[0]), hex_digit_of(g4[1])) {
        (Some(d1), Some(d2)) => d1 * 16 + d2,
        _ => {
            return Err(FormatError::Data4Byte0);
        },
    };
    if g4.len() < 4 {
        return Err(FormatError::Data4Byte1);
    }
    let b1 = match (hex_digit_of(g4[2]), hex_digit_of(g4[3])) {
        (Some(d1), Some(d2)) => d1 * 16 + d2,
        _ => {
            return Err(FormatError::Data4Byte1);
        },
    };
    let g5 = &groups[4];
    if g5.len() != 12 {
        return Err(FormatError::Data4Tail);
    }
    let b2 = lenient_pair_of(g5[0], g5[1]);
    let b3 = lenient_pair_of(g5[2], g5[3]);
    let b4 = lenient_pair_of(g5[4], g5[5]);
    let b5 = lenient_pair_of(g5[6], g5[7]);
    let b6 = lenient_pair_of(g5[8], g5[9]);
    let b7 = lenient_pair_of(g5[10], g5[11]);
    Ok(Guid { data1, data2, data3, data4: [b0, b1, b2, b3, b4, b5, b6, b7] })
}

/// Render an identifier to its standard hyphenated lower-case text form.
pub fn render_guid(g: &Guid) -> (r: String)
    ensures
        r@ == spec_render_guid(*g),
{
    let mut out = String::new();
    append_hex_fixed(&mut out, g.data1, 8);
    push_char(&mut out, '-');
    append_hex_fixed(&mut out, g.data2 as u32, 4);
    push_char(&mut out, '-');
    append_hex_fixed(&mut out, g.data3 as u32, 4);
    push_char(&mut out, '-');
    append_hex_fixed(&mut out, g.data4[0] as u32, 2);
    append_hex_fixed(&mut out, g.data4[1] as u32, 2);
    push_char(&mut out, '-');
    append_hex_fixed(&mut out, g.data4[2] as u32, 2);
    append_hex_fixed(&mut out, g.data4[3] as u32, 2);
    append_hex_fixed(&mut out, g.data4[4] as u32, 2);
    append_hex_fixed(&mut out, g.data4[5] as u32, 2);
    append_hex_fixed(&mut out, g.data4[6] as u32, 2);
    append_hex_fixed(&mut out, g.data4[7] as u32, 2);
    assert(out@ =~= spec_render_guid(*g));
    out
}

proof fn lemma_render_byte_pair(b: nat)
    requires
        b < 256,
    ensures
        hex_render(b, 2).len() == 2,
        hex_render(b, 2)[0] == crate::hexfmt::hex_char(b / 16),
        hex_render(b, 2)[1] == crate::hexfmt::hex_char(b % 16),
        is_hex_digit(hex_render(b, 2)[0]),
        is_hex_digit(hex_render(b, 2)[1]),
        hex_digit_value(hex_render(b, 2)[0]) * 16 + hex_digit_value(hex_render(b, 2)[1]) == b,
        lenient_pair(hex_render(b, 2)[0], hex_render(b, 2)[1]) == b,
    decreases b,
{
    lemma_hex_render_len(b, 2);
    lemma_hex_char_value(b / 16);
    lemma_hex_char_value(b % 16);
    assert(hex_render(b, 2) =~= hex_render(b / 16, 1).push(crate::hexfmt::hex_char(b % 16)));
    assert(hex_render(b / 16, 1) =~= hex_render(b / 256, 0).push(
        crate::hexfmt::hex_char((b / 16) % 16),
    ));
    assert((b / 16) % 16 == b / 16);
    assert((b / 16) * 16 + b % 16 == b) by (nonlinear_arith);
}

/// Rendering a known identifier and parsing the result recovers the identifier:
/// parsing is a left inverse of rendering over all identifier values.
#[verifier::rlimit(100)]
#[verifier::spinoff_prover]
pub proof fn lemma_parse_render_round_trip(g: Guid)
    ensures
        spec_parse_guid(spec_render_guid(g)) == Ok::<Guid, FormatError>(g),
{
    let r1 = hex_render(g.data1 as nat, 8);
    let r2 = hex_render(g.data2 as nat, 4);
    let r3 = hex_render(g.data3 as nat, 4);
    let p0 = hex_render(g.data4[0] as nat, 2);
    let p1 = hex_render(g.data4[1] as nat, 2);
    let p2 = hex_render(g.data4[2] as nat, 2);
    let p3 = hex_render(g.data4[3] as nat, 2);
    let p4 = hex_render(g.data4[4] as nat, 2);
    let p5 = hex_render(g.data4[5] as nat, 2);
    let p6 = hex_render(g.data4[6] as nat, 2);
    let p7 = hex_render(g.data4[7] as nat, 2);
    let g4 = p0 + p1;
    let g5 = p2 + p3 + p4 + p5 + p6 + p7;
    let s = spec_render_guid(g);

    lemma_hex_render_len(g.data1 as nat, 8);
    lemma_hex_render_len(g.data2 as nat, 4);
    lemma_hex_render_len(g.data3 as nat, 4);
    lemma_hex_render_all_hex(g.data1 as nat, 8);
    lemma_hex_render_all_hex(g.data2 as nat, 4);
    lemma_hex_render_all_hex(g.data3 as nat, 4);
    lemma_render_byte_pair(g.data4[0] as nat);
    lemma_render_byte_pair(g.data4[1] as nat);
    lemma_render_byte_pair(g.data4[2] as nat);
    lemma_render_byte_pair(g.data4[3] as nat);
    lemma_render_byte_pair(g.data4[4] as nat);
    lemma_render_byte_pair(g.data4[5] as nat);
    lemma_render_byte_pair(g.data4[6] as nat);
    lemma_render_byte_pair(g.data4[7] as nat);
    lemma_hex_render_all_hex(g.data4[0] as nat, 2);
    lemma_hex_render_all_hex(g.data4[1] as nat, 2);
    lemma_hex_render_all_hex(g.data4[2] as nat, 2);
    lemma_hex_render_all_hex(g.data4[3] as nat, 2);
    lemma_hex_render_all_hex(g.data4[4] as nat, 2);
    lemma_hex_render_all_hex(g.data4[5] as nat, 2);
    lemma_hex_render_all_hex(g.data4[6] as nat, 2);
    lemma_hex_render_all_hex(g.data4[7] as nat, 2);

    assert(s =~= r1 + seq!['-'] + (r2 + seq!['-'] + (r3 + seq!['-'] + (g4 + seq!['-'] + g5))));

    // No dashes and no braces inside a hexadecimal group.
    assert forall|i: int| 0 <= i < r1.len() implies r1[i] != '-' && !is_brace(r1[i]) by {
        lemma_hex_char_value(hex_digit_value(r1[i]));
    }
    assert forall|i: int| 0 <= i < r2.len() implies r2[i] != '-' by {
        lemma_hex_char_value(hex_digit_value(r2[i]));
    }
    assert forall|i: int| 0 <= i < r3.len() implies r3[i] != '-' by {
        lemma_hex_char_value(hex_digit_value(r3[i]));
    }
    assert(all_hex_digits(g4)) by {
        assert forall|i: int| 0 <= i < g4.len() implies is_hex_digit(#[trigger] g4[i]) by {
            if i < 2 {
                assert(g4[i] == p0[i]);
            } else {
                assert(g4[i] == p1[i - 2]);
            }
        }
    }
    assert forall|i: int| 0 <= i < g4.len() implies g4[i] != '-' by {
        lemma_hex_char_value(hex_digit_value(g4[i]));
    }
    assert(all_hex_digits(g5)) by {
        assert forall|i: int| 0 <= i < g5.len() implies is_hex_digit(#[trigger] g5[i]) by {
            if i < 2 {
                assert(g5[i] == p2[i]);
            } else if i < 4 {
                assert(g5[i] == p3[i - 2]);
            } else if i < 6 {
                assert(g5[i] == p4[i - 4]);
            } else if i < 8 {
                assert(g5[i] == p5[i - 6]);
            } else if i < 10 {
                assert(g5[i] == p6[i - 8]);
            } else {
                assert(g5[i] == p7[i - 10]);
            }
        }
    }
    assert forall|i: int| 0 <= i < g5.len() implies g5[i] != '-' && !is_brace(g5[i]) by {
        lemma_hex_char_value(hex_digit_value(g5[i]));
    }

    // Braces: the rendered text starts and ends with hexadecimal digits.
    assert(s[0] == r1[0]);
    assert(trim_start_braces(s) == s);
    assert(s.last() == g5[11]);
    assert(trim_end_braces(s) == s);
    assert(trim_braces(s) == s);

    // Split into exactly the five rendered groups.
    lemma_split_dash_concat(r1, r2 + seq!['-'] + (r3 + seq!['-'] + (g4 + seq!['-'] + g5)));
    lemma_split_dash_concat(r2, r3 + seq!['-'] + (g4 + seq!['-'] + g5));
    lemma_split_dash_concat(r3, g4 + seq!['-'] + g5);
    lemma_split_dash_concat(g4, g5);
    lemma_split_dash_no_dash(g5);
    let gs = split_dash(s);
    assert(gs =~~= seq![r1, r2, r3, g4, g5]);

    // The strict groups carry the rendered values.
    assert(pow16(8) == 0x1_0000_0000) by {
        reveal_with_fuel(pow16, 9);
    }
    assert(pow16(4) == 0x1_0000) by {
        reveal_with_fuel(pow16, 5);
    }
    lemma_hex_render_value(g.data1 as nat, 8);
    lemma_hex_render_value(g.data2 as nat, 4);
    lemma_hex_render_value(g.data3 as nat, 4);
    assert(group_ok(gs[0], 0xFFFF_FFFF));
    assert(group_ok(gs[1], 0xFFFF));
    assert(group_ok(gs[2], 0xFFFF));

    // The fourth group's two byte pairs.
    assert(g4[0] == p0[0] && g4[1] == p0[1] && g4[2] == p1[0] && g4[3] == p1[1]);
    assert(hex_digit_value(g4[0]) * 16 + hex_digit_value(g4[1]) == g.data4[0] as nat);
    assert(hex_digit_value(g4[2]) * 16 + hex_digit_value(g4[3]) == g.data4[1] as nat);

    // The fifth group's six lenient byte pairs.
    assert(g5[0] == p2[0] && g5[1] == p2[1]);
    assert(g5[2] == p3[0] && g5[3] == p3[1]);
    assert(g5[4] == p4[0] && g5[5] == p4[1]);
    assert(g5[6] == p5[0] && g5[7] == p5[1]);
    assert(g5[8] == p6[0] && g5[9] == p6[1]);
    assert(g5[10] == p7[0] && g5[11] == p7[1]);
    assert(lenient_pair(g5[0], g5[1]) == g.data4[2] as nat);
    assert(lenient_pair(g5[2], g5[3]) == g.data4[3] as nat);
    assert(lenient_pair(g5[4], g5[5]) == g.data4[4] as nat);
    assert(lenient_pair(g5[6], g5[7]) == g.data4[5] as nat);
    assert(lenient_pair(g5[8], g5[9]) == g.data4[6] as nat);
    assert(lenient_pair(g5[10], g5[11]) == g.data4[7] as nat);

    let parsed = spec_parse_guid(s);
    assert(parsed is Ok);
    let pg = parsed->Ok_0;
    broadcast use vstd::array::group_array_axioms;
    assert(pg.data4 =~= g.data4);
    assert(pg == g);
}

/// Any text that does not split into exactly five hyphen groups is rejected
/// with the format error, and any fifth group not exactly twelve characters
/// long is rejected with the trailing-group error.
pub proof fn lemma_parse_guid_group_shape(s: Seq<char>)
    ensures
        split_dash(trim_braces(s)).len() != 5 ==> spec_parse_guid(s) == Err::<
            Guid,
            FormatError,
        >(FormatError::InvalidFormat),
        spec_parse_guid(s) is Ok ==> split_dash(trim_braces(s)).len() == 5 && split_dash(
            trim_braces(s),
        )[4].len() == 12,
{
}

} // verus!
