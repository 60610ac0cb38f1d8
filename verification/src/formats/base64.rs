//! Base64 (RFC 4648, standard alphabet, padded) for embedded attachments.
use vstd::prelude::*;
use crate::text::push_char;

verus! {

/// The base64 character of a six-bit value.
pub open spec fn b64_char(v: int) -> char {
    if v < 26 {
        (65 + v) as char
    } else if v < 52 {
        (97 + v - 26) as char
    } else if v < 62 {
        (48 + v - 52) as char
    } else if v == 62 {
        '+'
    } else {
        '/'
    }
}

/// The four characters of the group of bytes starting at `i`; missing bytes
/// count as zero and their characters are `=`.
pub open spec fn b64_group(b: Seq<u8>, i: int) -> Seq<char> {
    let b0 = b[i] as int;
    let b1 = if i + 1 < b.len() { b[i + 1] as int } else { 0 };
    let b2 = if i + 2 < b.len() { b[i + 2] as int } else { 0 };
    seq![
        b64_char(b0 / 4),
        b64_char((b0 % 4) * 16 + b1 / 16),
        if i + 1 < b.len() { b64_char((b1 % 16) * 4 + b2 / 64) } else { '=' },
        if i + 2 < b.len() { b64_char(b2 % 64) } else { '=' },
    ]
}

/// Base64 text of the bytes from `i` on, in groups of three.
pub open spec fn b64_from(b: Seq<u8>, i: int) -> Seq<char>
    decreases b.len() - i,
{
    if i < 0 || i >= b.len() {
        Seq::empty()
    } else {
        b64_group(b, i) + if i + 3 < b.len() {
            b64_from(b, i + 3)
        } else {
            Seq::empty()
        }
    }
}

/// The base64 character of a six-bit value.
fn b64_digit(v: u8) -> (r: char)
    requires
        v < 64,
    ensures
        r == b64_char(v as int),
{
    if v < 26 {
        (65 + v) as char
    } else if v < 52 {
        (97 + v - 26) as char
    } else if v < 62 {
        (48 + v - 52) as char
    } else if v == 62 {
        '+'
    } else {
        '/'
    }
}

/// Base64 text of the bytes.
pub fn b64_encode(bytes: &[u8]) -> (r: String)
    ensures
        r@ == b64_from(bytes@, 0),
{
    let mut out = String::new();
    let mut i: usize = 0;
    while i < bytes.len()
        invariant
            out@ + b64_from(bytes@, i as int) == b64_from(bytes@, 0),
        decreases bytes.len() - i,
    {
        let ghost before = out@;
        let b0 = bytes[i];
        let rest = bytes.len() - i;
        let b1: u8 = if rest > 1 { bytes[i + 1] } else { 0 };
        let b2: u8 = if rest > 2 { bytes[i + 2] } else { 0 };
        push_char(&mut out, b64_digit(b0 / 4));
        push_char(&mut out, b64_digit((b0 % 4) * 16 + b1 / 16));
        if rest > 1 {
            push_char(&mut out, b64_digit((b1 % 16) * 4 + b2 / 64));
        } else {
            push_char(&mut out, '=');
        }
        if rest > 2 {
            push_char(&mut out, b64_digit(b2 % 64));
        } else {
            push_char(&mut out, '=');
        }
        proof {
            assert(out@ =~= before + b64_group(bytes@, i as int));
        }
        if rest <= 3 {
            proof {
                assert(b64_from(bytes@, i as int) =~= b64_group(bytes@, i as int));
                assert(before + b64_from(bytes@, i as int) =~= out@);
            }
            return out;
        }
        proof {
            assert(b64_from(bytes@, i as int) == b64_group(bytes@, i as int) + b64_from(bytes@, i + 3));
            assert(before + b64_from(bytes@, i as int) =~= out@ + b64_from(bytes@, i + 3));
        }
        i = i + 3;
    }
    assert(out@ + b64_from(bytes@, i as int) =~= out@);
    out
}


/// Value of a base64 character.
pub open spec fn b64_value(c: char) -> Option<int> {
    if 'A' <= c <= 'Z' {
        Some((c as int) - 65)
    } else if 'a' <= c <= 'z' {
        Some((c as int) - 97 + 26)
    } else if '0' <= c <= '9' {
        Some((c as int) - 48 + 52)
    } else if c == '+' {
        Some(62)
    } else if c == '/' {
        Some(63)
    } else {
        None
    }
}

/// ASCII white space (`u8::is_ascii_whitespace`).
pub open spec fn ascii_ws(c: char) -> bool {
    c == ' ' || c == '\t' || c == '\n' || c == '\x0C' || c == '\r'
}

/// The text without ASCII white space.
pub open spec fn without_ws(s: Seq<char>) -> Seq<char>
    decreases s.len(),
{
    if s.len() == 0 {
        Seq::empty()
    } else if ascii_ws(s.last()) {
        without_ws(s.drop_last())
    } else {
        without_ws(s.drop_last()).push(s.last())
    }
}

/// The bytes of one four-character group; `=` in the third place ends the
/// group after one byte, in the fourth after two.
pub open spec fn b64_group_bytes(v: Seq<char>) -> Option<Seq<u8>> {
    match (b64_value(v[0]), b64_value(v[1])) {
        (Some(a), Some(b)) => {
            let first = seq![(a * 4 + b / 16) as u8];
            if v[2] == '=' {
                Some(first)
            } else {
                match b64_value(v[2]) {
                    None => None,
                    Some(c) => {
                        let two = first.push(((b % 16) * 16 + c / 4) as u8);
                        if v[3] == '=' {
                            Some(two)
                        } else {
                            match b64_value(v[3]) {
                                None => None,
                                Some(d) => Some(two.push(((c % 4) * 64 + d) as u8)),
                            }
                        }
                    },
                }
            }
        },
        _ => None,
    }
}

/// The bytes of a run of four-character groups.
pub open spec fn b64_groups(v: Seq<char>) -> Option<Seq<u8>>
    decreases v.len(),
{
    if v.len() < 4 {
        Some(Seq::empty())
    } else {
        match (b64_group_bytes(v), b64_groups(v.subrange(4, v.len() as int))) {
            (Some(g), Some(rest)) => Some(g + rest),
            _ => None,
        }
    }
}

/// Base64 decoding, ASCII white space ignored: `None` unless the rest is a
/// whole number of four-character groups of base64 characters (`=` may
/// stand in the third and fourth place).
pub open spec fn b64_decoded(s: Seq<char>) -> Option<Seq<u8>> {
    let v = without_ws(s);
    if v.len() % 4 != 0 {
        None
    } else {
        b64_groups(v)
    }
}

/// Value of a base64 character.
fn b64_val(c: char) -> (r: Option<u8>)
    ensures
        match b64_value(c) {
            Some(v) => r == Some(v as u8) && 0 <= v < 64,
            None => r is None,
        },
{
    if 'A' <= c && c <= 'Z' {
        Some(((c as u32) - 65) as u8)
    } else if 'a' <= c && c <= 'z' {
        Some(((c as u32) - 97 + 26) as u8)
    } else if '0' <= c && c <= '9' {
        Some(((c as u32) - 48 + 52) as u8)
    } else if c == '+' {
        Some(62)
    } else if c == '/' {
        Some(63)
    } else {
        None
    }
}

/// Decode base64 text (see [`b64_decoded`]).
pub fn b64_decode(s: &str) -> (r: Option<Vec<u8>>)
    ensures
        match b64_decoded(s@) {
            Some(b) => r matches Some(v) && v@ == b,
            None => r is None,
        },
{
    let all = crate::text::chars_of(s);
    let mut v: Vec<char> = Vec::new();
    let mut i: usize = 0;
    while i < all.len()
        invariant
            all@ == s@,
            i <= all.len(),
            v@ == without_ws(s@.take(i as int)),
        decreases all.len() - i,
    {
        let c = all[i];
        proof {
            assert(s@.take(i + 1).drop_last() =~= s@.take(i as int));
            assert(s@.take(i + 1).last() == c);
        }
        if !(c == ' ' || c == '\t' || c == '\n' || c == '\x0C' || c == '\r') {
            v.push(c);
        }
        i = i + 1;
    }
    assert(s@.take(all.len() as int) =~= s@);
    if v.len() % 4 != 0 {
        return None;
    }
    let ghost whole = v@;
    let mut out: Vec<u8> = Vec::new();
    let mut k: usize = 0;
    assert(b64_decoded(s@) == b64_groups(whole));
    assert(whole.subrange(0, whole.len() as int) =~= whole);
    proof {
        match b64_groups(whole) {
            Some(r) => assert(out@ + r =~= r),
            None => {},
        }
    }
    while k < v.len()
        invariant
            v@ == whole,
            v.len() % 4 == 0,
            k % 4 == 0,
            k <= v.len(),
            b64_decoded(s@) == b64_groups(whole),
            b64_groups(whole) == match b64_groups(whole.subrange(k as int, whole.len() as int)) {
                Some(rest) => Some(out@ + rest),
                None => None::<Seq<u8>>,
            },
        decreases v.len() - k,
    {
        let ghost w = whole.subrange(k as int, whole.len() as int);
        assert(w.len() >= 4);
        assert(w.subrange(4, w.len() as int) =~= whole.subrange(k + 4, whole.len() as int));
        assert(w[0] == v@[k as int] && w[1] == v@[k + 1] && w[2] == v@[k + 2] && w[3] == v@[k + 3]);
        let ghost before = out@;
        let a = match b64_val(v[k]) {
            Some(x) => x,
            None => {
                assert(b64_groups(w) is None);
                return None;
            },
        };
        let b = match b64_val(v[k + 1]) {
            Some(x) => x,
            None => {
                assert(b64_groups(w) is None);
                return None;
            },
        };
        let ghost g: Seq<u8> = seq![(a * 4 + b / 16) as u8];
        out.push(a * 4 + b / 16);
        if v[k + 2] != '=' {
            let c = match b64_val(v[k + 2]) {
                Some(x) => x,
                None => {
                    assert(b64_groups(w) is None);
                    return None;
                },
            };
            out.push((b % 16) * 16 + c / 4);
            proof {
                g = g.push(((b % 16) * 16 + c / 4) as u8);
            }
            if v[k + 3] != '=' {
                let d = match b64_val(v[k + 3]) {
                    Some(x) => x,
                    None => {
                        assert(b64_groups(w) is None);
                        return None;
                    },
                };
                out.push((c % 4) * 64 + d);
                proof {
                    g = g.push(((c % 4) * 64 + d) as u8);
                }
            }
        }
        assert(b64_group_bytes(w) == Some(g));
        assert(out@ =~= before + g);
        proof {
            match b64_groups(whole.subrange(k + 4, whole.len() as int)) {
                Some(rest) => {
                    assert(before + (g + rest) =~= out@ + rest);
                },
                None => {},
            }
        }
        k = k + 4;
    }
    assert(whole.subrange(k as int, whole.len() as int) =~= Seq::<char>::empty());
    assert(out@ + Seq::<u8>::empty() =~= out@);
    Some(out)
}


/// A six-bit value comes back from its character, which is neither white
/// space nor padding.
proof fn lemma_char(v: int)
    requires
        0 <= v < 64,
    ensures
        b64_value(b64_char(v)) == Some(v),
        !ascii_ws(b64_char(v)),
        b64_char(v) != '=',
{
    if v < 26 {
        assert(((65 + v) as char) as int == 65 + v);
    } else if v < 52 {
        assert(((97 + v - 26) as char) as int == 97 + v - 26);
    } else if v < 62 {
        assert(((48 + v - 52) as char) as int == 48 + v - 52);
    }
}

/// Splitting three bytes into four six-bit values and joining them again
/// gives the bytes back.
proof fn lemma_six_bits(b0: int, b1: int, b2: int)
    requires
        0 <= b0 < 256,
        0 <= b1 < 256,
        0 <= b2 < 256,
    ensures
        0 <= b0 / 4 < 64,
        0 <= (b0 % 4) * 16 + b1 / 16 < 64,
        0 <= (b1 % 16) * 4 + b2 / 64 < 64,
        0 <= b2 % 64 < 64,
        (b0 / 4) * 4 + ((b0 % 4) * 16 + b1 / 16) / 16 == b0,
        (((b0 % 4) * 16 + b1 / 16) % 16) * 16 + ((b1 % 16) * 4 + b2 / 64) / 4 == b1,
        (((b1 % 16) * 4 + b2 / 64) % 4) * 64 + b2 % 64 == b2,
{
    assert((b0 / 4) * 4 + b0 % 4 == b0) by (nonlinear_arith)
        requires
            0 <= b0 < 256,
    ;
    assert(((b0 % 4) * 16 + b1 / 16) / 16 == b0 % 4) by (nonlinear_arith)
        requires
            0 <= b0 < 256,
            0 <= b1 < 256,
    ;
    assert(((b0 % 4) * 16 + b1 / 16) % 16 == b1 / 16) by (nonlinear_arith)
        requires
            0 <= b0 < 256,
            0 <= b1 < 256,
    ;
    assert(((b1 % 16) * 4 + b2 / 64) / 4 == b1 % 16) by (nonlinear_arith)
        requires
            0 <= b1 < 256,
            0 <= b2 < 256,
    ;
    assert(((b1 % 16) * 4 + b2 / 64) % 4 == b2 / 64) by (nonlinear_arith)
        requires
            0 <= b1 < 256,
            0 <= b2 < 256,
    ;
    assert((b1 / 16) * 16 + b1 % 16 == b1) by (nonlinear_arith)
        requires
            0 <= b1 < 256,
    ;
    assert((b2 / 64) * 64 + b2 % 64 == b2) by (nonlinear_arith)
        requires
            0 <= b2 < 256,
    ;
}

/// A text without white space is its own stripped form.
proof fn lemma_without_ws(s: Seq<char>)
    requires
        forall|i: int| 0 <= i < s.len() ==> !ascii_ws(#[trigger] s[i]),
    ensures
        without_ws(s) == s,
    decreases s.len(),
{
    if s.len() > 0 {
        lemma_without_ws(s.drop_last());
        assert(s.drop_last().push(s.last()) =~= s);
    }
}

/// The encoding of the bytes from `i` on has no white space, a whole number
/// of groups, and decodes to those bytes.
proof fn lemma_from(b: Seq<u8>, i: int)
    requires
        0 <= i < b.len(),
    ensures
        b64_from(b, i).len() % 4 == 0,
        forall|j: int| 0 <= j < b64_from(b, i).len() ==> !ascii_ws(#[trigger] b64_from(b, i)[j]),
        b64_groups(b64_from(b, i)) == Some(b.subrange(i, b.len() as int)),
    decreases b.len() - i,
{
    let g = b64_group(b, i);
    let rest: Seq<char> = if i + 3 < b.len() {
        b64_from(b, i + 3)
    } else {
        Seq::empty()
    };
    let tail: Seq<u8> = if i + 3 < b.len() {
        b.subrange(i + 3, b.len() as int)
    } else {
        Seq::empty()
    };
    if i + 3 < b.len() {
        lemma_from(b, i + 3);
    }
    let e = b64_from(b, i);
    assert(e == g + rest);
    let b0 = b[i] as int;
    let b1 = if i + 1 < b.len() { b[i + 1] as int } else { 0 };
    let b2 = if i + 2 < b.len() { b[i + 2] as int } else { 0 };
    lemma_six_bits(b0, b1, b2);
    lemma_char(b0 / 4);
    lemma_char((b0 % 4) * 16 + b1 / 16);
    lemma_char((b1 % 16) * 4 + b2 / 64);
    lemma_char(b2 % 64);
    assert(e.subrange(4, e.len() as int) =~= rest);
    assert(e[0] == g[0] && e[1] == g[1] && e[2] == g[2] && e[3] == g[3]);
    let bytes: Seq<u8> = if i + 2 < b.len() {
        seq![b[i], b[i + 1], b[i + 2]]
    } else if i + 1 < b.len() {
        seq![b[i], b[i + 1]]
    } else {
        seq![b[i]]
    };
    assert(b64_group_bytes(e) == Some(bytes));
    assert(bytes + tail =~= b.subrange(i, b.len() as int));
    assert forall|j: int| 0 <= j < e.len() implies !ascii_ws(#[trigger] e[j]) by {
        if j >= 4 {
            assert(e[j] == rest[j - 4]);
        }
    }
}

/// Decoding the base64 text of any bytes gives the bytes back.
pub proof fn lemma_b64_round_trip(b: Seq<u8>)
    ensures
        b64_decoded(b64_from(b, 0)) == Some(b),
{
    if b.len() == 0 {
        assert(without_ws(b64_from(b, 0)) =~= Seq::<char>::empty());
        assert(b =~= Seq::<u8>::empty());
    } else {
        lemma_from(b, 0);
        lemma_without_ws(b64_from(b, 0));
        assert(b.subrange(0, b.len() as int) =~= b);
    }
}

} // verus!
