//! XRechnung shape checks. XRechnung is a German CIUS of EN 16931; its rules
//! overlay only when a document claims an XRechnung specification id and the
//! overlay is switched on, which it is not in this library.
use vstd::prelude::*;
use vstd::arithmetic::div_mod::{lemma_add_mod_noop, lemma_mul_mod_noop_left};
use crate::text::{char_is_ws, chars_contains, chars_of, contains, is_alpha, is_digit, is_ws, lower_chars, lower_text};

verus! {

/// BT-24 names KoSIT / xeinkauf XRechnung (any version).
pub open spec fn names_xrechnung(id: Seq<char>) -> bool {
    contains(lower_text(id), "xrechnung"@) || contains(lower_text(id), "xeinkauf.de"@)
}

/// True when BT-24 names KoSIT / xeinkauf XRechnung (any 1.x/2.x/3.x).
pub fn is_xrechnung_spec(id: &str) -> (r: bool)
    ensures
        r == names_xrechnung(id@),
{
    let v = lower_chars(id);
    let a = chars_of("xrechnung");
    let b = chars_of("xeinkauf.de");
    chars_contains(v.as_slice(), a.as_slice()) || chars_contains(v.as_slice(), b.as_slice())
}

/// The characters that are not white space, in order.
pub open spec fn compact(s: Seq<char>) -> Seq<char>
    decreases s.len(),
{
    if s.len() == 0 {
        Seq::empty()
    } else if is_ws(s.last()) {
        compact(s.drop_last())
    } else {
        compact(s.drop_last()).push(s.last())
    }
}

/// ASCII letter or digit.
pub open spec fn is_alnum(c: char) -> bool {
    is_digit(c) || is_alpha(c)
}

/// Value of a character in the IBAN check: digits stand for themselves,
/// letters (either case) for `10..=35`.
pub open spec fn iban_char_value(c: char) -> int {
    if is_digit(c) {
        (c as int) - ('0' as int)
    } else {
        (upper_ascii(c) as int) - ('A' as int) + 10
    }
}

/// ASCII upper case.
pub open spec fn upper_ascii(c: char) -> char {
    crate::text::upper(c)
}

/// The number written by the characters, each letter replaced by its two
/// digit value.
pub open spec fn iban_number(s: Seq<char>) -> int
    decreases s.len(),
{
    if s.len() == 0 {
        0
    } else {
        let v = iban_char_value(s.last());
        if v >= 10 {
            iban_number(s.drop_last()) * 100 + v
        } else {
            iban_number(s.drop_last()) * 10 + v
        }
    }
}

/// ISO 7064 mod-97-10 check on an IBAN with its white space removed: five to
/// thirty-four ASCII letters and digits, two letters then two digits, and the
/// number of the rearranged text (first four characters moved to the end)
/// leaves remainder 1 modulo 97.
pub open spec fn iban_ok(s: Seq<char>) -> bool {
    let c = compact(s);
    &&& 5 <= c.len() <= 34
    &&& forall|i: int| 0 <= i < c.len() ==> is_alnum(#[trigger] c[i])
    &&& is_alpha(c[0]) && is_alpha(c[1]) && is_digit(c[2]) && is_digit(c[3])
    &&& iban_number(c.skip(4) + c.take(4)) % 97 == 1
}

fn compact_chars(s: &str) -> (v: Vec<char>)
    ensures
        v@ == compact(s@),
{
    let c = chars_of(s);
    let mut v: Vec<char> = Vec::new();
    let mut i: usize = 0;
    while i < c.len()
        invariant
            c@ == s@,
            i <= c.len(),
            v@ == compact(c@.take(i as int)),
        decreases c.len() - i,
    {
        assert(c@.take(i + 1).drop_last() =~= c@.take(i as int));
        if !char_is_ws(c[i]) {
            v.push(c[i]);
        }
        i = i + 1;
    }
    assert(c@.take(c@.len() as int) =~= c@);
    v
}

proof fn lemma_step_mod(a: int, m: int, v: int)
    requires
        m > 0,
    ensures
        (a * m + v) % 97 == ((a % 97) * m + v) % 97,
{
    lemma_mul_mod_noop_left(a, m, 97);
    lemma_add_mod_noop(a * m, v, 97);
    lemma_add_mod_noop((a % 97) * m, v, 97);
}

/// ISO 7064 mod-97-10 IBAN checksum; not a country registry check.
pub fn is_valid_iban_checksum(s: &str) -> (r: bool)
    ensures
        r == iban_ok(s@),
{
    let c = compact_chars(s);
    let n = c.len();
    if n < 5 || n > 34 {
        return false;
    }
    let mut i: usize = 0;
    while i < n
        invariant
            c@ == compact(s@),
            n == c.len(),
            i <= n,
            forall|j: int| 0 <= j < i ==> is_alnum(#[trigger] c@[j]),
        decreases n - i,
    {
        let ch = c[i];
        if !(('0' <= ch && ch <= '9') || ('a' <= ch && ch <= 'z') || ('A' <= ch && ch <= 'Z')) {
            return false;
        }
        i = i + 1;
    }
    let a0 = c[0];
    let a1 = c[1];
    let d2 = c[2];
    let d3 = c[3];
    if !((('a' <= a0 && a0 <= 'z') || ('A' <= a0 && a0 <= 'Z')) && (('a' <= a1 && a1 <= 'z') || (
    'A' <= a1 && a1 <= 'Z')) && ('0' <= d2 && d2 <= '9') && ('0' <= d3 && d3 <= '9')) {
        return false;
    }
    let ghost rs = c@.skip(4) + c@.take(4);
    let mut rem: u32 = 0;
    let mut k: usize = 0;
    while k < n
        invariant
            c@ == compact(s@),
            n == c.len(),
            5 <= n <= 34,
            k <= n,
            rs == c@.skip(4) + c@.take(4),
            rs.len() == n,
            forall|j: int| 0 <= j < n ==> is_alnum(#[trigger] c@[j]),
            rem < 97,
            rem as int == iban_number(rs.take(k as int)) % 97,
        decreases n - k,
    {
        let idx: usize = if k + 4 < n { k + 4 } else { k + 4 - n };
        let ch = c[idx];
        assert(rs[k as int] == ch);
        assert(is_alnum(ch));
        let value: u32 = if '0' <= ch && ch <= '9' {
            (ch as u32) - 48
        } else if 'a' <= ch && ch <= 'z' {
            (ch as u32) - 97 + 10
        } else {
            (ch as u32) - 65 + 10
        };
        assert(value as int == iban_char_value(ch));
        assert(rs.take(k + 1).drop_last() =~= rs.take(k as int));
        let ghost prev = iban_number(rs.take(k as int));
        if value >= 10 {
            proof {
                lemma_step_mod(prev, 100, value as int);
            }
            rem = (rem * 100 + value) % 97;
        } else {
            proof {
                lemma_step_mod(prev, 10, value as int);
            }
            rem = (rem * 10 + value) % 97;
        }
        k = k + 1;
    }
    assert(rs.take(n as int) =~= rs);
    rem == 1
}

/// Characters before and after the single `@`, each at least two long; the
/// local part does not end, and the domain does not begin, with a space or a
/// dot; the whole does not begin or end with a dot.
pub open spec fn email_shape(s: Seq<char>) -> bool {
    exists|k: int|
        0 <= k < s.len() && #[trigger] s[k] == '@' && (forall|j: int|
            0 <= j < s.len() && j != k ==> s[j] != '@') && {
            let local = s.take(k);
            let domain = s.skip(k + 1);
            &&& local.len() >= 2
            &&& domain.len() >= 2
            &&& local.last() != ' ' && local.last() != '.'
            &&& domain[0] != ' ' && domain[0] != '.'
            &&& s[0] != '.' && s.last() != '.'
        }
}

/// A shape test for e-mail addresses, weaker than RFC 5322.
pub fn plausible_email(s: &str) -> (r: bool)
    ensures
        r == email_shape(s@),
{
    let c = chars_of(s);
    let n = c.len();
    let mut at: usize = n;
    let mut count: usize = 0;
    let mut i: usize = 0;
    while i < n
        invariant
            c@ == s@,
            n == c.len(),
            i <= n,
            count <= i,
            count == 0 ==> at == n && forall|j: int| 0 <= j < i ==> c@[j] != '@',
            count >= 1 ==> at < i && c@[at as int] == '@',
            count == 1 ==> forall|j: int| 0 <= j < i && j != at ==> c@[j] != '@',
            count >= 2 ==> exists|j: int| 0 <= j < i && j != at && c@[j] == '@',
        decreases n - i,
    {
        if c[i] == '@' {
            if count == 0 {
                at = i;
            }
            count = count + 1;
        }
        i = i + 1;
    }
    if count != 1 {
        proof {
            if email_shape(s@) {
                let k = choose|k: int|
                    0 <= k < s@.len() && #[trigger] s@[k] == '@' && (forall|j: int|
                        0 <= j < s@.len() && j != k ==> s@[j] != '@') && {
                        let local = s@.take(k);
                        let domain = s@.skip(k + 1);
                        &&& local.len() >= 2
                        &&& domain.len() >= 2
                        &&& local.last() != ' ' && local.last() != '.'
                        &&& domain[0] != ' ' && domain[0] != '.'
                        &&& s@[0] != '.' && s@.last() != '.'
                    };
                if count >= 2 {
                    let j = choose|j: int| 0 <= j < n && j != at && c@[j] == '@';
                    assert(at == k || j == k);
                }
            }
        }
        return false;
    }
    let ok = at >= 2 && n - at - 1 >= 2 && c[at - 1] != ' ' && c[at - 1] != '.' && c[at + 1]
        != ' ' && c[at + 1] != '.' && c[0] != '.' && c[n - 1] != '.';
    proof {
        let local = s@.take(at as int);
        let domain = s@.skip(at + 1);
        if ok {
            assert(local.last() == c@[at - 1]);
            assert(domain[0] == c@[at + 1]);
            assert(email_shape(s@));
        }
        if email_shape(s@) {
            let k = choose|k: int|
                0 <= k < s@.len() && #[trigger] s@[k] == '@' && (forall|j: int|
                    0 <= j < s@.len() && j != k ==> s@[j] != '@') && {
                    let local = s@.take(k);
                    let domain = s@.skip(k + 1);
                    &&& local.len() >= 2
                    &&& domain.len() >= 2
                    &&& local.last() != ' ' && local.last() != '.'
                    &&& domain[0] != ' ' && domain[0] != '.'
                    &&& s@[0] != '.' && s@.last() != '.'
                };
            assert(k == at);
            assert(local.last() == c@[at - 1]);
            assert(domain[0] == c@[at + 1]);
        }
    }
    ok
}

} // verus!
