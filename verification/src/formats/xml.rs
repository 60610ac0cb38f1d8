//! XML hygiene shared by UBL and CII: one DTD policy, one size cap, one depth cap.
use vstd::prelude::*;
use vstd::string::*;
use crate::formats::FormatError;
use crate::text::{char_is_ws, chars_of, chars_starts_with, contains, find_first, find_in, is_ws, lemma_trim_start, lower_chars, lower_text, owned, starts_with, str_eq, trim, trim_start, trim_start_from, trim_str};

verus! {

/// Deepest element nesting accepted.
pub const MAX_DEPTH: usize = 64;

/// Largest input accepted, in bytes.
pub const MAX_INPUT_BYTES: usize = 10485760;

/// A DTD is refused (any `<!doctype`, ASCII case ignored).
pub fn refuse_dtd(xml: &str) -> (r: Result<(), FormatError>)
    ensures
        r is Err <==> contains(lower_text(xml@), "<!doctype"@),
        r matches Err(e) ==> (e matches FormatError::Parse(m) && m@ == "DTD is refused"@),
{
    let v = lower_chars(xml);
    let p = chars_of("<!doctype");
    if crate::text::chars_contains(v.as_slice(), p.as_slice()) {
        return Err(FormatError::Parse(owned("DTD is refused")));
    }
    Ok(())
}

/// Input over [`MAX_INPUT_BYTES`] bytes is refused.
pub fn refuse_oversize(xml: &str) -> (r: Result<(), FormatError>)
    ensures
        r is Err <==> xml.len() > MAX_INPUT_BYTES,
        r matches Err(e) ==> (e matches FormatError::Parse(m) && m@
            == "input exceeds 10485760 bytes"@),
{
    if xml.len() > MAX_INPUT_BYTES {
        return Err(FormatError::Parse(owned("input exceeds 10485760 bytes")));
    }
    Ok(())
}

/// Nesting deeper than [`MAX_DEPTH`] is refused.
pub fn refuse_depth(xml: &str) -> (r: Result<(), FormatError>)
    ensures
        r is Err <==> depth_at(xml@, MAX_DEPTH as nat, xml@.len() as int) is None,
        r matches Err(e) ==> (e matches FormatError::Parse(m) && m@ == "XML depth exceeds 64"@),
{
    if exceeds_depth(xml, MAX_DEPTH) {
        return Err(FormatError::Parse(owned("XML depth exceeds 64")));
    }
    Ok(())
}

/// Nesting depth after the first `i` characters, counting `<` that opens an
/// element up, `</` and `/>` down (never below zero), and skipping `<!` and
/// `<?`; `None` once the depth went over `max`.
pub open spec fn depth_at(s: Seq<char>, max: nat, i: int) -> Option<nat>
    decreases i,
{
    if i <= 0 {
        Some(0)
    } else {
        match depth_at(s, max, i - 1) {
            None => None,
            Some(d) => {
                let k = i - 1;
                let next = k + 1 < s.len();
                if s[k] == '<' {
                    if next && s[k + 1] == '/' {
                        Some(if d > 0 { (d - 1) as nat } else { 0 })
                    } else if next && (s[k + 1] == '!' || s[k + 1] == '?') {
                        Some(d)
                    } else if d + 1 > max {
                        None
                    } else {
                        Some(d + 1)
                    }
                } else if s[k] == '/' && next && s[k + 1] == '>' {
                    Some(if d > 0 { (d - 1) as nat } else { 0 })
                } else {
                    Some(d)
                }
            },
        }
    }
}

/// Nesting goes deeper than `max` somewhere in the text.
pub fn exceeds_depth(xml: &str, max: usize) -> (r: bool)
    ensures
        r == depth_at(xml@, max as nat, xml@.len() as int) is None,
{
    let v = chars_of(xml);
    let n = v.len();
    let mut depth: usize = 0;
    let mut i: usize = 0;
    while i < n
        invariant
            v@ == xml@,
            n == v.len(),
            i <= n,
            depth <= max,
            depth_at(xml@, max as nat, i as int) == Some(depth as nat),
        decreases n - i,
    {
        let next = i + 1 < n;
        if v[i] == '<' {
            if next && v[i + 1] == '/' {
                depth = if depth > 0 { depth - 1 } else { 0 };
            } else if next && (v[i + 1] == '!' || v[i + 1] == '?') {
            } else {
                if depth >= max {
                    proof {
                        lemma_none_stays(xml@, max as nat, i + 1, n as int);
                    }
                    return true;
                }
                depth = depth + 1;
            }
        } else if v[i] == '/' && next && v[i + 1] == '>' {
            depth = if depth > 0 { depth - 1 } else { 0 };
        }
        i = i + 1;
    }
    false
}

proof fn lemma_none_stays(s: Seq<char>, max: nat, i: int, j: int)
    requires
        depth_at(s, max, i) is None,
        i <= j,
    ensures
        depth_at(s, max, j) is None,
    decreases j - i,
{
    if i < j {
        lemma_none_stays(s, max, i, j - 1);
    }
}

/// The text after the prolog: leading whitespace, processing instructions,
/// comments and a DOCTYPE declaration skipped, repeatedly. An unterminated
/// instruction or comment leaves nothing.
pub open spec fn after_prolog(s: Seq<char>) -> Seq<char>
    decreases s.len(),
{
    let r = trim_start(s);
    if r.len() <= s.len() {
        if starts_with(r, "<?"@) {
            match find_first(r, "?>"@) {
                Some(k) => if 0 <= k && k + 2 <= r.len() {
                    after_prolog(r.skip(k + 2))
                } else {
                    Seq::empty()
                },
                None => Seq::empty(),
            }
        } else if starts_with(r, "<!--"@) {
            match find_first(r, "-->"@) {
                Some(k) => if 0 <= k && k + 3 <= r.len() {
                    after_prolog(r.skip(k + 3))
                } else {
                    Seq::empty()
                },
                None => Seq::empty(),
            }
        } else if starts_with(lower_text(r), "<!doctype"@) && find_first(r, ">"@) is Some {
            let k = find_first(r, ">"@)->0;
            if 0 <= k && k + 1 <= r.len() && r.len() > 0 {
                after_prolog(r.skip(k + 1))
            } else {
                r
            }
        } else {
            r
        }
    } else {
        r
    }
}

proof fn lemma_first_occurrence(s: Seq<char>, p: Seq<char>, i: int)
    requires
        crate::text::occurs_at(s, p, i),
    ensures
        exists|k: int| crate::text::first_at(s, p, k),
    decreases i,
{
    if exists|j: int| 0 <= j < i && crate::text::occurs_at(s, p, j) {
        let j = choose|j: int| 0 <= j < i && crate::text::occurs_at(s, p, j);
        lemma_first_occurrence(s, p, j);
    } else {
        assert(crate::text::first_at(s, p, i));
    }
}

/// The first index found is where the pattern occurs.
proof fn lemma_find_first_occurs(s: Seq<char>, p: Seq<char>)
    ensures
        find_first(s, p) matches Some(k) ==> crate::text::occurs_at(s, p, k),
{
    if contains(s, p) {
        let i = choose|i: int| crate::text::occurs_at(s, p, i);
        lemma_first_occurrence(s, p, i);
    }
}

/// Removing leading whitespace twice removes no more.
proof fn lemma_trim_start_fixed(s: Seq<char>)
    ensures
        trim_start(trim_start(s)) == trim_start(s),
    decreases s.len(),
{
    if s.len() > 0 && is_ws(s[0]) {
        lemma_trim_start_fixed(s.drop_first());
    }
}

/// What is left after the prolog is the end of the text, has no leading
/// whitespace, starts with no processing instruction, comment or complete
/// DOCTYPE declaration, and has no prolog left to skip.
pub proof fn lemma_after_prolog(s: Seq<char>)
    ensures
        after_prolog(s).len() <= s.len(),
        after_prolog(s) == s.skip(s.len() - after_prolog(s).len()),
        trim_start(after_prolog(s)) == after_prolog(s),
        !starts_with(after_prolog(s), "<?"@),
        !starts_with(after_prolog(s), "<!--"@),
        !(starts_with(lower_text(after_prolog(s)), "<!doctype"@) && find_first(after_prolog(s), ">"@) is Some),
        after_prolog(after_prolog(s)) == after_prolog(s),
    decreases s.len(),
{
    reveal_strlit("<?");
    reveal_strlit("<!--");
    reveal_strlit("?>");
    reveal_strlit("-->");
    reveal_strlit(">");
    let r = trim_start(s);
    lemma_trim_start(s);
    lemma_trim_start_fixed(s);
    lemma_find_first_occurs(r, "?>"@);
    lemma_find_first_occurs(r, "-->"@);
    lemma_find_first_occurs(r, ">"@);
    let e = Seq::<char>::empty();
    assert(trim_start(e) == e);
    assert(!starts_with(e, "<?"@));
    assert(!starts_with(e, "<!--"@));
    reveal_strlit("<!doctype");
    assert(!starts_with(lower_text(e), "<!doctype"@));
    assert(after_prolog(e) == e);
    assert(e == s.skip(s.len() as int));
    if starts_with(r, "<?"@) {
        match find_first(r, "?>"@) {
            Some(k) => {
                let t = r.skip(k + 2);
                lemma_after_prolog(t);
                assert(r.skip(k + 2).skip(t.len() - after_prolog(t).len()) =~= s.skip(s.len() - after_prolog(t).len()));
            },
            None => {},
        }
    } else if starts_with(r, "<!--"@) {
        match find_first(r, "-->"@) {
            Some(k) => {
                let t = r.skip(k + 3);
                lemma_after_prolog(t);
                assert(r.skip(k + 3).skip(t.len() - after_prolog(t).len()) =~= s.skip(s.len() - after_prolog(t).len()));
            },
            None => {},
        }
    } else if starts_with(lower_text(r), "<!doctype"@) && find_first(r, ">"@) is Some {
        let k = find_first(r, ">"@)->0;
        let t = r.skip(k + 1);
        lemma_after_prolog(t);
        assert(r.skip(k + 1).skip(t.len() - after_prolog(t).len()) =~= s.skip(s.len() - after_prolog(t).len()));
    } else {
        assert(after_prolog(r) == r);
    }
}

/// The text after the prolog (see [`after_prolog`]).
pub fn skip_prolog(xml: &str) -> (r: &str)
    ensures
        r@ == after_prolog(xml@),
{
    let v = chars_of(xml);
    let n = v.len();
    let mut pos: usize = 0;
    assert(v@.subrange(0, n as int) =~= xml@);
    proof {
        reveal_strlit("?>");
        reveal_strlit("-->");
        reveal_strlit(">");
    }
    loop
        invariant
            v@ == xml@,
            n == v.len(),
            pos <= n,
            after_prolog(v@.subrange(pos as int, n as int)) == after_prolog(xml@),
        decreases n - pos,
    {
        let ghost s = v@.subrange(pos as int, n as int);
        proof {
            reveal_strlit("?>");
            reveal_strlit("-->");
            reveal_strlit(">");
        }
        let t = trim_start_from(v.as_slice(), pos);
        let ghost r = v@.subrange(t as int, n as int);
        proof {
            lemma_trim_start(s);
        }
        let rest = slice_from(&v, t);
        let pi = chars_of("<?");
        let cm = chars_of("<!--");
        if chars_starts_with(rest.as_slice(), pi.as_slice()) {
            let close = chars_of("?>");
            match find_in(rest.as_slice(), close.as_slice()) {
                Some(k) => {
                    assert(r.skip(k + 2) =~= v@.subrange(t + k + 2, n as int));
                    pos = t + k + 2;
                },
                None => {
                    return xml.substring_char(n, n);
                },
            }
        } else if chars_starts_with(rest.as_slice(), cm.as_slice()) {
            let close = chars_of("-->");
            match find_in(rest.as_slice(), close.as_slice()) {
                Some(k) => {
                    assert(r.skip(k + 3) =~= v@.subrange(t + k + 3, n as int));
                    pos = t + k + 3;
                },
                None => {
                    return xml.substring_char(n, n);
                },
            }
        } else {
            let low = lower_vec(&rest);
            let dt = chars_of("<!doctype");
            let gt = chars_of(">");
            if chars_starts_with(low.as_slice(), dt.as_slice()) {
                match find_in(rest.as_slice(), gt.as_slice()) {
                    Some(k) => {
                        assert(r.skip(k + 1) =~= v@.subrange(t + k + 1, n as int));
                        pos = t + k + 1;
                    },
                    None => {
                        return xml.substring_char(t, n);
                    },
                }
            } else {
                return xml.substring_char(t, n);
            }
        }
    }
}

fn slice_from(v: &Vec<char>, from: usize) -> (r: Vec<char>)
    requires
        from <= v.len(),
    ensures
        r@ == v@.subrange(from as int, v.len() as int),
{
    let mut r: Vec<char> = Vec::new();
    let mut i: usize = from;
    while i < v.len()
        invariant
            from <= i <= v.len(),
            r@ == v@.subrange(from as int, i as int),
        decreases v.len() - i,
    {
        r.push(v[i]);
        assert(v@.subrange(from as int, i + 1) =~= v@.subrange(from as int, i as int).push(
            v@[i as int],
        ));
        i = i + 1;
    }
    r
}

fn lower_vec(v: &Vec<char>) -> (r: Vec<char>)
    ensures
        r@ == lower_text(v@),
{
    let mut r: Vec<char> = Vec::new();
    let mut i: usize = 0;
    while i < v.len()
        invariant
            i <= v.len(),
            r@ == lower_text(v@.take(i as int)),
        decreases v.len() - i,
    {
        r.push(crate::text::char_lower(v[i]));
        assert(lower_text(v@.take(i + 1)) =~= lower_text(v@.take(i as int)).push(
            crate::text::lower(v@[i as int]),
        ));
        i = i + 1;
    }
    assert(v@.take(v@.len() as int) =~= v@);
    r
}

/// Ends a qualified name: whitespace, `>` or `/`.
pub open spec fn name_end(c: char) -> bool {
    is_ws(c) || c == '>' || c == '/'
}

/// Leading `/` removed.
pub open spec fn strip_slashes(s: Seq<char>) -> Seq<char>
    decreases s.len(),
{
    if s.len() > 0 && s[0] == '/' {
        strip_slashes(s.drop_first())
    } else {
        s
    }
}

/// Characters up to the first name end.
pub open spec fn qname_of(s: Seq<char>) -> Seq<char>
    decreases s.len(),
{
    if s.len() == 0 || name_end(s[0]) {
        Seq::empty()
    } else {
        seq![s[0]] + qname_of(s.drop_first())
    }
}

/// The part after the last `:`, or all of it.
pub open spec fn local_part(q: Seq<char>) -> Seq<char>
    decreases q.len(),
{
    if q.len() == 0 {
        q
    } else if q.last() == ':' {
        Seq::empty()
    } else {
        local_part(q.drop_last()).push(q.last())
    }
}

/// Local name of the first tag of a text: after leading whitespace a `<`,
/// any `/`, then the qualified name up to whitespace, `>` or `/`.
pub open spec fn first_tag_local(s: Seq<char>) -> Option<Seq<char>> {
    let r = trim_start(s);
    if r.len() > 0 && r[0] == '<' {
        Some(local_part(qname_of(strip_slashes(r.drop_first()))))
    } else {
        None
    }
}

/// Local name of the first tag.
pub fn first_element_local(xml: &str) -> (r: Option<&str>)
    ensures
        match first_tag_local(xml@) {
            Some(l) => r matches Some(x) && x@ == l,
            None => r is None,
        },
{
    let v = chars_of(xml);
    let n = v.len();
    assert(v@.subrange(0, n as int) =~= v@);
    let t = trim_start_from(v.as_slice(), 0);
    let ghost r0 = v@.subrange(t as int, n as int);
    if t >= n || v[t] != '<' {
        proof {
            if r0.len() > 0 {
                assert(r0[0] == v@[t as int]);
            }
        }
        return None;
    }
    assert(r0[0] == v@[t as int]);
    let mut p: usize = t + 1;
    assert(r0.drop_first() =~= v@.subrange(p as int, n as int));
    while p < n && v[p] == '/'
        invariant
            t < p <= n,
            n == v.len(),
            strip_slashes(r0.drop_first()) == strip_slashes(v@.subrange(p as int, n as int)),
        decreases n - p,
    {
        assert(v@.subrange(p as int, n as int).drop_first() =~= v@.subrange(p + 1, n as int));
        p = p + 1;
    }
    let start = p;
    let ghost body = v@.subrange(start as int, n as int);
    assert(strip_slashes(body) == body) by {
        if body.len() > 0 {
            assert(body[0] == v@[start as int]);
        }
    }
    let mut e: usize = start;
    while e < n && !(char_is_ws(v[e]) || v[e] == '>' || v[e] == '/')
        invariant
            start <= e <= n,
            n == v.len(),
            body == v@.subrange(start as int, n as int),
            qname_of(body) == v@.subrange(start as int, e as int) + qname_of(
                v@.subrange(e as int, n as int),
            ),
        decreases n - e,
    {
        assert(v@.subrange(e as int, n as int)[0] == v@[e as int]);
        assert(v@.subrange(e as int, n as int).drop_first() =~= v@.subrange(e + 1, n as int));
        assert(v@.subrange(start as int, e + 1) =~= v@.subrange(start as int, e as int) + seq![
            v@[e as int],
        ]);
        e = e + 1;
    }
    proof {
        let tail = v@.subrange(e as int, n as int);
        if tail.len() > 0 {
            assert(tail[0] == v@[e as int]);
        }
        assert(qname_of(tail) =~= Seq::<char>::empty());
        assert(qname_of(body) =~= v@.subrange(start as int, e as int));
    }
    let mut c: usize = e;
    while c > start && v[c - 1] != ':'
        invariant
            start <= c <= e,
            e <= n,
            n == v.len(),
            local_part(v@.subrange(start as int, e as int)) == local_part(
                v@.subrange(start as int, c as int),
            ) + v@.subrange(c as int, e as int),
        decreases c,
    {
        assert(v@.subrange(start as int, c as int).last() == v@[c - 1]);
        assert(v@.subrange(start as int, c as int).drop_last() =~= v@.subrange(
            start as int,
            c - 1,
        ));
        assert(v@.subrange(c - 1, e as int) =~= seq![v@[c - 1]] + v@.subrange(c as int, e as int));
        c = c - 1;
    }
    proof {
        let q = v@.subrange(start as int, c as int);
        if c > start {
            assert(q.last() == v@[c - 1]);
        }
        assert(local_part(q) =~= Seq::<char>::empty());
        assert(local_part(v@.subrange(start as int, e as int)) =~= v@.subrange(c as int, e as int));
    }
    Some(xml.substring_char(c, e))
}

/// Local name of the document element, after the prolog.
pub fn document_element_local(xml: &str) -> (r: Option<&str>)
    ensures
        match first_tag_local(after_prolog(xml@)) {
            Some(l) => r matches Some(x) && x@ == l,
            None => r is None,
        },
{
    first_element_local(skip_prolog(xml))
}

/// `xs:boolean` after trimming: `true` or `1`, `false` or `0`.
pub open spec fn xs_boolean(s: Seq<char>) -> Option<bool> {
    let t = trim(s);
    if t == "true"@ || t == "1"@ {
        Some(true)
    } else if t == "false"@ || t == "0"@ {
        Some(false)
    } else {
        None
    }
}

/// `xs:boolean`: `true`/`false`/`1`/`0`, with surrounding whitespace.
pub fn parse_xs_boolean(s: &str) -> (r: Option<bool>)
    ensures
        r == xs_boolean(s@),
{
    let t = trim_str(s);
    if str_eq(t, "true") || str_eq(t, "1") {
        Some(true)
    } else if str_eq(t, "false") || str_eq(t, "0") {
        Some(false)
    } else {
        None
    }
}

} // verus!
