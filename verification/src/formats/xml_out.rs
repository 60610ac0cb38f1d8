//! Writing XML text: escaping, indentation, and elements with a namespace
//! prefix. Every writer only appends to its output.
use vstd::prelude::*;
use crate::text::{chars_of, has_chars, push_char};

verus! {

/// `b` is `a` with text appended.
pub open spec fn grows(a: Seq<char>, b: Seq<char>) -> bool {
    a.len() <= b.len() && forall|i: int| 0 <= i < a.len() ==> #[trigger] b[i] == a[i]
}

/// Escaped form of one character: `&`, `<`, `>` and `"` become entities.
pub open spec fn escape_char(c: char) -> Seq<char> {
    if c == '&' {
        "&amp;"@
    } else if c == '<' {
        "&lt;"@
    } else if c == '>' {
        "&gt;"@
    } else if c == '"' {
        "&quot;"@
    } else {
        seq![c]
    }
}

/// Escaped form of a text, character by character.
pub open spec fn escape_text(s: Seq<char>) -> Seq<char>
    decreases s.len(),
{
    if s.len() == 0 {
        Seq::empty()
    } else {
        escape_text(s.drop_last()) + escape_char(s.last())
    }
}

/// Append the escaped form of `t`.
pub fn push_escaped(s: &mut String, t: &str)
    ensures
        final(s)@ == old(s)@ + escape_text(t@),
{
    let v = chars_of(t);
    let ghost start = s@;
    let mut i: usize = 0;
    while i < v.len()
        invariant
            v@ == t@,
            i <= v.len(),
            s@ == start + escape_text(t@.take(i as int)),
        decreases v.len() - i,
    {
        let c = v[i];
        proof {
            assert(t@.take(i + 1).drop_last() =~= t@.take(i as int));
            assert(t@.take(i + 1).last() == c);
        }
        if c == '&' {
            s.append("&amp;");
        } else if c == '<' {
            s.append("&lt;");
        } else if c == '>' {
            s.append("&gt;");
        } else if c == '"' {
            s.append("&quot;");
        } else {
            push_char(s, c);
            assert(s@ =~= start + escape_text(t@.take(i as int)) + seq![c]);
        }
        i = i + 1;
    }
    assert(t@.take(v.len() as int) =~= t@);
}

/// The escaped form of a text.
pub fn escape(t: &str) -> (r: String)
    ensures
        r@ == escape_text(t@),
{
    let mut s = String::new();
    push_escaped(&mut s, t);
    assert(Seq::<char>::empty() + escape_text(t@) =~= escape_text(t@));
    s
}

/// Two spaces per indentation level.
pub open spec fn indent_text(n: nat) -> Seq<char>
    decreases n,
{
    if n == 0 {
        Seq::empty()
    } else {
        indent_text((n - 1) as nat) + "  "@
    }
}

/// Append the indentation of a level.
pub fn push_indent(s: &mut String, n: usize)
    ensures
        final(s)@ == old(s)@ + indent_text(n as nat),
{
    let ghost start = s@;
    let mut i: usize = 0;
    assert(start + indent_text(0) =~= start);
    while i < n
        invariant
            i <= n,
            s@ == start + indent_text(i as nat),
        decreases n - i,
    {
        s.append("  ");
        proof {
            assert(indent_text((i + 1) as nat) == indent_text(i as nat) + "  "@);
            assert(s@ =~= start + indent_text((i + 1) as nat));
        }
        i = i + 1;
    }
}

/// `<prefix:tag>` on a line of its own.
pub open spec fn open_text(n: nat, prefix: Seq<char>, tag: Seq<char>) -> Seq<char> {
    indent_text(n) + "<"@ + prefix + ":"@ + tag + ">\n"@
}

/// `</prefix:tag>` on a line of its own.
pub open spec fn close_text(n: nat, prefix: Seq<char>, tag: Seq<char>) -> Seq<char> {
    indent_text(n) + "</"@ + prefix + ":"@ + tag + ">\n"@
}

/// ` key="value"`, the value escaped.
pub open spec fn attr_text(key: Seq<char>, value: Seq<char>) -> Seq<char> {
    " "@ + key + "=\""@ + escape_text(value) + "\""@
}

/// An optional attribute.
pub open spec fn opt_attr_text(attr: Option<(Seq<char>, Seq<char>)>) -> Seq<char> {
    match attr {
        Some((k, v)) => attr_text(k, v),
        None => Seq::empty(),
    }
}

/// `<prefix:tag attrs>escaped value</prefix:tag>` on a line of its own.
pub open spec fn leaf_text(n: nat, prefix: Seq<char>, tag: Seq<char>, attrs: Seq<char>, value: Seq<char>) -> Seq<char> {
    indent_text(n) + "<"@ + prefix + ":"@ + tag + attrs + ">"@ + escape_text(value) + "</"@ + prefix + ":"@
        + tag + ">\n"@
}

/// An optional attribute as plain values.
pub open spec fn attr_view(attr: Option<(&str, &str)>) -> Option<(Seq<char>, Seq<char>)> {
    match attr {
        Some((k, v)) => Some((k@, v@)),
        None => None,
    }
}

/// Append `<prefix:tag>`.
pub fn open_el(s: &mut String, n: usize, prefix: &str, tag: &str)
    ensures
        final(s)@ == old(s)@ + open_text(n as nat, prefix@, tag@),
{
    let ghost start = s@;
    push_indent(s, n);
    s.append("<");
    s.append(prefix);
    s.append(":");
    s.append(tag);
    s.append(">\n");
    assert(s@ =~= start + open_text(n as nat, prefix@, tag@));
}

/// Append `</prefix:tag>`.
pub fn close_el(s: &mut String, n: usize, prefix: &str, tag: &str)
    ensures
        final(s)@ == old(s)@ + close_text(n as nat, prefix@, tag@),
{
    let ghost start = s@;
    push_indent(s, n);
    s.append("</");
    s.append(prefix);
    s.append(":");
    s.append(tag);
    s.append(">\n");
    assert(s@ =~= start + close_text(n as nat, prefix@, tag@));
}

/// Append ` key="value"`.
fn push_attr(s: &mut String, key: &str, value: &str)
    ensures
        final(s)@ == old(s)@ + attr_text(key@, value@),
{
    let ghost start = s@;
    s.append(" ");
    s.append(key);
    s.append("=\"");
    push_escaped(s, value);
    s.append("\"");
    assert(s@ =~= start + attr_text(key@, value@));
}

/// Append the end of a leaf: `>escaped value</prefix:tag>`.
fn push_leaf_end(s: &mut String, prefix: &str, tag: &str, value: &str)
    ensures
        final(s)@ == old(s)@ + ">"@ + escape_text(value@) + "</"@ + prefix@ + ":"@ + tag@ + ">\n"@,
{
    let ghost start = s@;
    s.append(">");
    push_escaped(s, value);
    s.append("</");
    s.append(prefix);
    s.append(":");
    s.append(tag);
    s.append(">\n");
    assert(s@ =~= start + ">"@ + escape_text(value@) + "</"@ + prefix@ + ":"@ + tag@ + ">\n"@);
}

/// Append `<prefix:tag key="v">escaped value</prefix:tag>`, the attribute
/// when there is one.
pub fn leaf_el(s: &mut String, n: usize, prefix: &str, tag: &str, value: &str, attr: Option<(&str, &str)>)
    ensures
        final(s)@ == old(s)@ + leaf_text(n as nat, prefix@, tag@, opt_attr_text(attr_view(attr)), value@),
{
    let ghost start = s@;
    push_indent(s, n);
    s.append("<");
    s.append(prefix);
    s.append(":");
    s.append(tag);
    let ghost mid = s@;
    match attr {
        Some((k, v)) => push_attr(s, k, v),
        None => {},
    }
    assert(s@ == mid + opt_attr_text(attr_view(attr)));
    push_leaf_end(s, prefix, tag, value);
    assert(s@ =~= start + leaf_text(n as nat, prefix@, tag@, opt_attr_text(attr_view(attr)), value@));
}

/// Append a leaf with two attributes.
pub fn leaf_el2(s: &mut String, n: usize, prefix: &str, tag: &str, value: &str, a: (&str, &str), b: (&str, &str))
    ensures
        final(s)@ == old(s)@ + leaf_text(n as nat, prefix@, tag@, attr_text(a.0@, a.1@) + attr_text(b.0@, b.1@), value@),
{
    let ghost start = s@;
    push_indent(s, n);
    s.append("<");
    s.append(prefix);
    s.append(":");
    s.append(tag);
    push_attr(s, a.0, a.1);
    push_attr(s, b.0, b.1);
    push_leaf_end(s, prefix, tag, value);
    assert(s@ =~= start + leaf_text(n as nat, prefix@, tag@, attr_text(a.0@, a.1@) + attr_text(b.0@, b.1@), value@));
}

/// ` currencyID="cur"` unless the currency is empty.
pub open spec fn currency_attr(cur: Seq<char>) -> Seq<char> {
    if cur.len() > 0 {
        attr_text("currencyID"@, cur)
    } else {
        Seq::empty()
    }
}

/// `<prefix:tag currencyID="cur">value</prefix:tag>`; the value is a number
/// and is written as it is.
pub open spec fn amount_text(n: nat, prefix: Seq<char>, tag: Seq<char>, value: Seq<char>, cur: Seq<char>) -> Seq<char> {
    indent_text(n) + "<"@ + prefix + ":"@ + tag + currency_attr(cur) + ">"@ + value + "</"@ + prefix + ":"@ + tag
        + ">\n"@
}

/// Append an amount element with its currency.
pub fn amount_el(s: &mut String, n: usize, prefix: &str, tag: &str, value: &str, cur: &str)
    ensures
        final(s)@ == old(s)@ + amount_text(n as nat, prefix@, tag@, value@, cur@),
{
    let ghost start = s@;
    push_indent(s, n);
    s.append("<");
    s.append(prefix);
    s.append(":");
    s.append(tag);
    if has_chars(cur) {
        push_attr(s, "currencyID", cur);
    }
    s.append(">");
    s.append(value);
    s.append("</");
    s.append(prefix);
    s.append(":");
    s.append(tag);
    s.append(">\n");
    assert(s@ =~= start + amount_text(n as nat, prefix@, tag@, value@, cur@));
}

} // verus!
