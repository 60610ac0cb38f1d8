//! Character-level text helpers shared by the rules, codes and parsers.
//!
//! Specifications are over `Seq<char>` (the view of `str` and `String`).
use vstd::prelude::*;

verus! {

broadcast use vstd::string::axiom_spec_iter;

/// Unicode `White_Space` (the set `char::is_whitespace` tests).
pub open spec fn is_ws(c: char) -> bool {
    let u = c as u32;
    ||| 0x09 <= u <= 0x0d
    ||| u == 0x20
    ||| u == 0x85
    ||| u == 0xa0
    ||| u == 0x1680
    ||| 0x2000 <= u <= 0x200a
    ||| u == 0x2028
    ||| u == 0x2029
    ||| u == 0x202f
    ||| u == 0x205f
    ||| u == 0x3000
}

/// Leading whitespace removed.
pub open spec fn trim_start(s: Seq<char>) -> Seq<char>
    decreases s.len(),
{
    if s.len() > 0 && is_ws(s[0]) {
        trim_start(s.drop_first())
    } else {
        s
    }
}

/// Trailing whitespace removed.
pub open spec fn trim_end(s: Seq<char>) -> Seq<char>
    decreases s.len(),
{
    if s.len() > 0 && is_ws(s.last()) {
        trim_end(s.drop_last())
    } else {
        s
    }
}

/// Leading and trailing whitespace removed (`str::trim`).
pub open spec fn trim(s: Seq<char>) -> Seq<char> {
    trim_end(trim_start(s))
}

/// Empty or whitespace only.
pub open spec fn blank(s: Seq<char>) -> bool {
    forall|i: int| 0 <= i < s.len() ==> is_ws(#[trigger] s[i])
}

/// ASCII letters folded to lower case; other characters unchanged.
pub open spec fn lower(c: char) -> char {
    if 'A' <= c <= 'Z' {
        ((c as u32) + 32) as char
    } else {
        c
    }
}

/// ASCII letters folded to upper case; other characters unchanged.
pub open spec fn upper(c: char) -> char {
    if 'a' <= c <= 'z' {
        ((c as u32) - 32) as char
    } else {
        c
    }
}

/// Equal up to ASCII case (`str::eq_ignore_ascii_case`).
pub open spec fn eq_ic(a: Seq<char>, b: Seq<char>) -> bool {
    a.len() == b.len() && forall|i: int| 0 <= i < a.len() ==> lower(#[trigger] a[i]) == lower(b[i])
}

/// `p` is a prefix of `s`.
pub open spec fn starts_with(s: Seq<char>, p: Seq<char>) -> bool {
    p.len() <= s.len() && s.subrange(0, p.len() as int) == p
}

/// `p` is a suffix of `s`.
pub open spec fn ends_with(s: Seq<char>, p: Seq<char>) -> bool {
    p.len() <= s.len() && s.subrange(s.len() - p.len(), s.len() as int) == p
}

/// `p` occurs in `s` at `i`.
pub open spec fn occurs_at(s: Seq<char>, p: Seq<char>, i: int) -> bool {
    0 <= i && i + p.len() <= s.len() && s.subrange(i, i + p.len()) == p
}

/// `p` occurs in `s`.
pub open spec fn contains(s: Seq<char>, p: Seq<char>) -> bool {
    exists|i: int| occurs_at(s, p, i)
}

/// ASCII digit.
pub open spec fn is_digit(c: char) -> bool {
    '0' <= c <= '9'
}

/// ASCII letter.
pub open spec fn is_alpha(c: char) -> bool {
    ('a' <= c <= 'z') || ('A' <= c <= 'Z')
}

/// The characters of a text.
pub fn chars_of(s: &str) -> (v: Vec<char>)
    ensures
        v@ == s@,
{
    let mut v: Vec<char> = Vec::new();
    for c in it: s.chars()
        invariant
            v@ == it.seq().take(it.index() as int),
            it.seq() == s@,
    {
        v.push(c);
    }
    v
}

/// Calls `str::trim`: the text without leading and trailing `White_Space`.
#[verifier::external_body]
pub fn trim_str(s: &str) -> (r: &str)
    ensures
        r@ == trim(s@),
{
    s.trim()
}

/// Calls `char::is_whitespace`.
pub fn char_is_ws(c: char) -> (r: bool)
    ensures
        r == is_ws(c),
{
    let u = c as u32;
    (0x09 <= u && u <= 0x0d) || u == 0x20 || u == 0x85 || u == 0xa0 || u == 0x1680 || (0x2000 <= u
        && u <= 0x200a) || u == 0x2028 || u == 0x2029 || u == 0x202f || u == 0x205f || u == 0x3000
}

/// ASCII lower-case of one character.
pub fn char_lower(c: char) -> (r: char)
    ensures
        r == lower(c),
{
    if 'A' <= c && c <= 'Z' {
        let u = (c as u32) + 32;
        assert(u == (c as u32) + 32);
        char_from_ascii(u)
    } else {
        c
    }
}

/// ASCII upper-case of one character.
pub fn char_upper(c: char) -> (r: char)
    ensures
        r == upper(c),
{
    if 'a' <= c && c <= 'z' {
        char_from_ascii((c as u32) - 32)
    } else {
        c
    }
}

fn char_from_ascii(u: u32) -> (r: char)
    requires
        u < 128,
    ensures
        r == u as char,
{
    (u as u8) as char
}

/// Empty or whitespace only (`s.trim().is_empty()`).
pub fn is_blank(s: &str) -> (r: bool)
    ensures
        r == blank(s@),
{
    let v = chars_of(s);
    let mut i: usize = 0;
    while i < v.len()
        invariant
            v@ == s@,
            i <= v.len(),
            forall|j: int| 0 <= j < i ==> is_ws(#[trigger] v@[j]),
        decreases v.len() - i,
    {
        if !char_is_ws(v[i]) {
            return false;
        }
        i = i + 1;
    }
    true
}

/// Character sequences equal.
pub fn chars_eq(a: &[char], b: &[char]) -> (r: bool)
    ensures
        r == (a@ == b@),
{
    if a.len() != b.len() {
        return false;
    }
    let mut i: usize = 0;
    while i < a.len()
        invariant
            a.len() == b.len(),
            i <= a.len(),
            forall|j: int| 0 <= j < i ==> a@[j] == b@[j],
        decreases a.len() - i,
    {
        if a[i] != b[i] {
            return false;
        }
        i = i + 1;
    }
    assert(a@ =~= b@);
    true
}

/// Texts equal.
pub fn str_eq(a: &str, b: &str) -> (r: bool)
    ensures
        r == (a@ == b@),
{
    let va = chars_of(a);
    let vb = chars_of(b);
    chars_eq(va.as_slice(), vb.as_slice())
}

/// Equal up to ASCII case.
pub fn chars_eq_ic(a: &[char], b: &[char]) -> (r: bool)
    ensures
        r == eq_ic(a@, b@),
{
    if a.len() != b.len() {
        return false;
    }
    let mut i: usize = 0;
    while i < a.len()
        invariant
            a.len() == b.len(),
            i <= a.len(),
            forall|j: int| 0 <= j < i ==> lower(#[trigger] a@[j]) == lower(b@[j]),
        decreases a.len() - i,
    {
        if char_lower(a[i]) != char_lower(b[i]) {
            return false;
        }
        i = i + 1;
    }
    true
}

/// Texts equal up to ASCII case (`str::eq_ignore_ascii_case`).
pub fn str_eq_ic(a: &str, b: &str) -> (r: bool)
    ensures
        r == eq_ic(a@, b@),
{
    let va = chars_of(a);
    let vb = chars_of(b);
    chars_eq_ic(va.as_slice(), vb.as_slice())
}

/// `p` occurs in `s` at `i` (exec).
pub fn chars_occurs_at(s: &[char], p: &[char], i: usize) -> (r: bool)
    ensures
        r == occurs_at(s@, p@, i as int),
{
    if i > s.len() || p.len() > s.len() - i {
        return false;
    }
    let mut k: usize = 0;
    while k < p.len()
        invariant
            i + p.len() <= s.len(),
            k <= p.len(),
            forall|j: int| 0 <= j < k ==> s@[i + j] == p@[j],
        decreases p.len() - k,
    {
        if s[i + k] != p[k] {
            assert(s@.subrange(i as int, i + p.len())[k as int] != p@[k as int]);
            return false;
        }
        k = k + 1;
    }
    assert(s@.subrange(i as int, i + p.len()) =~= p@);
    true
}

/// `p` is a prefix of `s`.
pub fn chars_starts_with(s: &[char], p: &[char]) -> (r: bool)
    ensures
        r == starts_with(s@, p@),
{
    chars_occurs_at(s, p, 0)
}

/// `p` is a suffix of `s`.
pub fn chars_ends_with(s: &[char], p: &[char]) -> (r: bool)
    ensures
        r == ends_with(s@, p@),
{
    if p.len() > s.len() {
        return false;
    }
    chars_occurs_at(s, p, s.len() - p.len())
}

/// Index of the first occurrence of `p` in `s`.
pub fn chars_find(s: &[char], p: &[char]) -> (r: Option<usize>)
    ensures
        r matches Some(i) ==> occurs_at(s@, p@, i as int) && forall|j: int|
            0 <= j < i ==> !occurs_at(s@, p@, j),
        r is None ==> !contains(s@, p@),
{
    let mut i: usize = 0;
    while i < s.len()
        invariant
            i <= s.len(),
            forall|j: int| 0 <= j < i ==> !occurs_at(s@, p@, j),
        decreases s.len() - i,
    {
        if chars_occurs_at(s, p, i) {
            return Some(i);
        }
        i = i + 1;
    }
    if chars_occurs_at(s, p, i) {
        return Some(i);
    }
    assert forall|j: int| !occurs_at(s@, p@, j) by {
        if 0 <= j && j <= i {
        }
    }
    None
}

/// `p` occurs in `s` (`str::contains`).
pub fn chars_contains(s: &[char], p: &[char]) -> (r: bool)
    ensures
        r == contains(s@, p@),
{
    chars_find(s, p).is_some()
}

/// `p` occurs in `s`.
pub fn str_contains(s: &str, p: &str) -> (r: bool)
    ensures
        r == contains(s@, p@),
{
    let vs = chars_of(s);
    let vp = chars_of(p);
    chars_contains(vs.as_slice(), vp.as_slice())
}

/// `p` is a prefix of `s` (`str::starts_with`).
pub fn str_starts_with(s: &str, p: &str) -> (r: bool)
    ensures
        r == starts_with(s@, p@),
{
    let vs = chars_of(s);
    let vp = chars_of(p);
    chars_starts_with(vs.as_slice(), vp.as_slice())
}

/// `p` is a suffix of `s` (`str::ends_with`).
pub fn str_ends_with(s: &str, p: &str) -> (r: bool)
    ensures
        r == ends_with(s@, p@),
{
    let vs = chars_of(s);
    let vp = chars_of(p);
    chars_ends_with(vs.as_slice(), vp.as_slice())
}

/// The text has at least one character.
pub fn has_chars(s: &str) -> (r: bool)
    ensures
        r == (s@.len() > 0),
{
    let v = chars_of(s);
    v.len() > 0
}

/// An owned copy of a text.
pub fn owned(s: &str) -> (r: String)
    ensures
        r@ == s@,
{
    s.to_owned()
}

/// Concatenation of two texts.
pub fn concat(a: &str, b: &str) -> (r: String)
    ensures
        r@ == a@ + b@,
{
    let mut x = a.to_owned();
    x.append(b);
    x
}

/// Concatenation of three texts.
pub fn concat3(a: &str, b: &str, c: &str) -> (r: String)
    ensures
        r@ == a@ + b@ + c@,
{
    let mut x = a.to_owned();
    x.append(b);
    x.append(c);
    x
}

/// Count of ASCII digits in a text.
pub open spec fn digit_count(s: Seq<char>) -> nat
    decreases s.len(),
{
    if s.len() == 0 {
        0
    } else {
        digit_count(s.drop_last()) + if is_digit(s.last()) { 1nat } else { 0nat }
    }
}

/// Count of ASCII digits.
pub fn count_digits(s: &str) -> (r: usize)
    ensures
        r == digit_count(s@),
{
    let v = chars_of(s);
    let mut n: usize = 0;
    let mut i: usize = 0;
    while i < v.len()
        invariant
            v@ == s@,
            i <= v.len(),
            n == digit_count(v@.take(i as int)),
            n <= i,
        decreases v.len() - i,
    {
        assert(v@.take(i + 1).drop_last() =~= v@.take(i as int));
        if '0' <= v[i] && v[i] <= '9' {
            n = n + 1;
        }
        i = i + 1;
    }
    assert(v@.take(v.len() as int) =~= v@);
    n
}


/// Calls `String::push`: appends one character.
#[verifier::external_body]
pub fn push_char(s: &mut String, c: char)
    ensures
        final(s)@ == old(s)@.push(c),
{
    s.push(c);
}

/// A text made of the given characters.
pub fn string_from_chars(v: &[char]) -> (r: String)
    ensures
        r@ == v@,
{
    let mut r = String::new();
    let mut i: usize = 0;
    while i < v.len()
        invariant
            i <= v.len(),
            r@ == v@.take(i as int),
        decreases v.len() - i,
    {
        push_char(&mut r, v[i]);
        assert(v@.take(i + 1) =~= v@.take(i as int).push(v@[i as int]));
        i = i + 1;
    }
    assert(v@.take(v.len() as int) =~= v@);
    r
}

/// The ASCII digit for `d < 10`.
pub fn digit_char(d: u64) -> (r: char)
    requires
        d < 10,
    ensures
        r == (('0' as u8) + (d as u8)) as char,
{
    ((48u8 + (d as u8)) as char)
}

/// Decimal digits of `n`, most significant first.
pub fn u64_digits(n: u64) -> (v: Vec<char>)
    ensures
        v@ == crate::dec::digits(n as nat),
    decreases n,
{
    if n < 10 {
        let mut v: Vec<char> = Vec::new();
        v.push(digit_char(n));
        assert(v@ =~= crate::dec::digits(n as nat));
        v
    } else {
        let mut v = u64_digits(n / 10);
        v.push(digit_char(n % 10));
        assert(v@ =~= crate::dec::digits(n as nat));
        v
    }
}

/// Decimal text of `n`.
pub fn u64_text(n: u64) -> (r: String)
    ensures
        r@ == crate::dec::digits(n as nat),
{
    let v = u64_digits(n);
    string_from_chars(v.as_slice())
}

/// ASCII lower case of every character.
pub open spec fn lower_text(s: Seq<char>) -> Seq<char> {
    Seq::new(s.len(), |i: int| lower(s[i]))
}

/// ASCII lower case of every character of a text.
pub fn lower_chars(s: &str) -> (v: Vec<char>)
    ensures
        v@ == lower_text(s@),
{
    let c = chars_of(s);
    let mut v: Vec<char> = Vec::new();
    let mut i: usize = 0;
    while i < c.len()
        invariant
            c@ == s@,
            i <= c.len(),
            v@ == lower_text(c@.take(i as int)),
        decreases c.len() - i,
    {
        v.push(char_lower(c[i]));
        assert(lower_text(c@.take(i + 1)) =~= lower_text(c@.take(i as int)).push(lower(c@[i as int])));
        i = i + 1;
    }
    assert(c@.take(c@.len() as int) =~= c@);
    v
}


/// A text occurs in any text that has it as a middle piece.
pub proof fn lemma_contains_piece(a: Seq<char>, p: Seq<char>, b: Seq<char>)
    ensures
        contains(a + p + b, p),
{
    assert((a + p + b).subrange(a.len() as int, (a.len() + p.len()) as int) =~= p);
    assert(occurs_at(a + p + b, p, a.len() as int));
}

/// A text holds its front and back pieces.
pub proof fn lemma_contains_ends(x: Seq<char>, y: Seq<char>)
    ensures
        contains(x + y, x),
        contains(x + y, y),
{
    assert((x + y).subrange(0, x.len() as int) =~= x);
    assert(occurs_at(x + y, x, 0));
    assert((x + y).subrange(x.len() as int, (x.len() + y.len()) as int) =~= y);
    assert(occurs_at(x + y, y, x.len() as int));
}

/// A text that occurs in a piece of a text occurs in the text.
pub proof fn lemma_contains_trans(s: Seq<char>, t: Seq<char>, p: Seq<char>)
    requires
        contains(s, t),
        contains(t, p),
    ensures
        contains(s, p),
{
    let i = choose|i: int| occurs_at(s, t, i);
    let j = choose|j: int| occurs_at(t, p, j);
    assert(s.subrange(i + j, i + j + p.len()) =~= t.subrange(j, j + p.len()));
    assert(occurs_at(s, p, i + j));
}

/// Leading whitespace removal never lengthens a text, and what it removes
/// is a prefix.
pub proof fn lemma_trim_start(s: Seq<char>)
    ensures
        trim_start(s).len() <= s.len(),
        trim_start(s) == s.skip(s.len() - trim_start(s).len()),
    decreases s.len(),
{
    if s.len() > 0 && is_ws(s[0]) {
        lemma_trim_start(s.drop_first());
        assert(s.drop_first().skip(s.drop_first().len() - trim_start(s).len()) =~= s.skip(
            s.len() - trim_start(s).len(),
        ));
    } else {
        assert(s.skip(0) =~= s);
    }
}

/// Index from which `v[from..]` has its leading whitespace removed.
pub fn trim_start_from(v: &[char], from: usize) -> (r: usize)
    requires
        from <= v.len(),
    ensures
        from <= r <= v.len(),
        v@.subrange(r as int, v.len() as int) == trim_start(v@.subrange(from as int, v.len() as int)),
    decreases v.len() - from,
{
    let ghost s = v@.subrange(from as int, v.len() as int);
    if from < v.len() && char_is_ws(v[from]) {
        assert(s[0] == v@[from as int]);
        assert(s.drop_first() =~= v@.subrange(from + 1, v.len() as int));
        trim_start_from(v, from + 1)
    } else {
        from
    }
}

/// `k` is the first index at which `p` occurs in `s`.
pub open spec fn first_at(s: Seq<char>, p: Seq<char>, k: int) -> bool {
    occurs_at(s, p, k) && forall|j: int| 0 <= j < k ==> !occurs_at(s, p, j)
}

/// First index at which `p` occurs in `s`.
pub open spec fn find_first(s: Seq<char>, p: Seq<char>) -> Option<int> {
    if contains(s, p) {
        Some(choose|k: int| first_at(s, p, k))
    } else {
        None
    }
}

/// `chars_find` in terms of [`find_first`].
pub fn find_in(s: &[char], p: &[char]) -> (r: Option<usize>)
    ensures
        r matches Some(i) ==> find_first(s@, p@) == Some(i as int) && i + p@.len() <= s@.len(),
        r is None ==> find_first(s@, p@) is None,
{
    let r = chars_find(s, p);
    match r {
        Some(i) => {
            proof {
                assert(occurs_at(s@, p@, i as int));
                assert(contains(s@, p@));
                let k = choose|k: int| first_at(s@, p@, k);
                assert(first_at(s@, p@, i as int));
                if k < i {
                    assert(!occurs_at(s@, p@, k));
                } else if k > i {
                    assert(!occurs_at(s@, p@, i as int));
                }
            }
            Some(i)
        },
        None => None,
    }
}

} // verus!
