//! Syntax prohibitions: document paths the CEN syntax bindings forbid, each
//! with its context. The context is half the rule: `cbc:UUID` is forbidden
//! under the document element, not everywhere.
use vstd::prelude::*;
use crate::formats::xml::local_part;
use crate::text::{chars_ends_with, chars_eq, chars_of, ends_with, owned, starts_with, str_eq};
use crate::formats::Syntax;
use crate::formats::nodes::{parent_index, parent_of};
use crate::formats::tree::{XmlNode, XmlNodeView, node_views, parse_xml, parsed_nodes};

verus! {

/// Leading `/` removed.
pub open spec fn strip_leading_slashes(s: Seq<char>) -> Seq<char>
    decreases s.len(),
{
    if s.len() > 0 && s[0] == '/' {
        strip_leading_slashes(s.drop_first())
    } else {
        s
    }
}

/// Index of the first `/`.
pub open spec fn first_slash(s: Seq<char>) -> Option<int> {
    if exists|i: int| 0 <= i < s.len() && s[i] == '/' {
        Some(choose|i: int| 0 <= i < s.len() && s[i] == '/' && forall|j: int| 0 <= j < i ==> s[j] != '/')
    } else {
        None
    }
}

/// A document-element-relative path (`/`-joined) matches a rule's context
/// and relative path. A context starting with a single `/` anchors at the
/// document element, compared by local name; `//` or a bare name matches at
/// any depth.
pub open spec fn matches_rule(path: Seq<char>, context: Seq<char>, relative: Seq<char>) -> bool {
    let floating = starts_with(context, "//"@) || !starts_with(context, "/"@);
    let ctx = strip_leading_slashes(context);
    if floating {
        let needle = ctx + seq!['/'] + relative;
        path == needle || ends_with(path, seq!['/'] + needle)
    } else {
        match first_slash(path) {
            None => false,
            Some(k) => local_part(path.take(k)) == local_part(ctx) && path.skip(k + 1) == relative,
        }
    }
}

fn strip_slashes_vec(v: &Vec<char>) -> (r: Vec<char>)
    ensures
        r@ == strip_leading_slashes(v@),
{
    let mut i: usize = 0;
    assert(v@.subrange(0, v@.len() as int) =~= v@);
    while i < v.len() && v[i] == '/'
        invariant
            i <= v.len(),
            strip_leading_slashes(v@) == strip_leading_slashes(v@.subrange(i as int, v@.len() as int)),
        decreases v.len() - i,
    {
        assert(v@.subrange(i as int, v@.len() as int).drop_first() =~= v@.subrange(i + 1, v@.len() as int));
        i = i + 1;
    }
    let mut r: Vec<char> = Vec::new();
    let mut j: usize = i;
    while j < v.len()
        invariant
            i <= j <= v.len(),
            r@ == v@.subrange(i as int, j as int),
        decreases v.len() - j,
    {
        r.push(v[j]);
        assert(v@.subrange(i as int, j + 1) =~= v@.subrange(i as int, j as int).push(v@[j as int]));
        j = j + 1;
    }
    proof {
        let t = v@.subrange(i as int, v@.len() as int);
        if t.len() > 0 {
            assert(t[0] == v@[i as int]);
        }
    }
    r
}

fn local_vec(v: &Vec<char>, lo: usize, hi: usize) -> (r: Vec<char>)
    requires
        lo <= hi <= v.len(),
    ensures
        r@ == local_part(v@.subrange(lo as int, hi as int)),
{
    let mut c: usize = hi;
    while c > lo && v[c - 1] != ':'
        invariant
            lo <= c <= hi,
            hi <= v.len(),
            local_part(v@.subrange(lo as int, hi as int)) == local_part(v@.subrange(lo as int, c as int))
                + v@.subrange(c as int, hi as int),
        decreases c,
    {
        assert(v@.subrange(lo as int, c as int).last() == v@[c - 1]);
        assert(v@.subrange(lo as int, c as int).drop_last() =~= v@.subrange(lo as int, c - 1));
        assert(v@.subrange(c - 1, hi as int) =~= seq![v@[c - 1]] + v@.subrange(c as int, hi as int));
        c = c - 1;
    }
    proof {
        let q = v@.subrange(lo as int, c as int);
        if c > lo {
            assert(q.last() == v@[c - 1]);
        }
        assert(local_part(q) =~= Seq::<char>::empty());
    }
    let mut r: Vec<char> = Vec::new();
    let mut j: usize = c;
    while j < hi
        invariant
            c <= j <= hi,
            hi <= v.len(),
            r@ == v@.subrange(c as int, j as int),
        decreases hi - j,
    {
        r.push(v[j]);
        assert(v@.subrange(c as int, j + 1) =~= v@.subrange(c as int, j as int).push(v@[j as int]));
        j = j + 1;
    }
    assert(local_part(v@.subrange(lo as int, hi as int)) =~= r@);
    r
}

/// Does a path match a rule's context and relative path (see [`matches_rule`])?
pub fn path_matches(path: &str, context: &str, relative: &str) -> (r: bool)
    ensures
        r == matches_rule(path@, context@, relative@),
{
    proof {
        reveal_strlit("//");
        reveal_strlit("/");
    }
    let p = chars_of(path);
    let c = chars_of(context);
    let rel = chars_of(relative);
    let two = chars_of("//");
    let one = chars_of("/");
    let floating = crate::text::chars_starts_with(c.as_slice(), two.as_slice())
        || !crate::text::chars_starts_with(c.as_slice(), one.as_slice());
    let ctx = strip_slashes_vec(&c);
    if floating {
        let mut needle: Vec<char> = Vec::new();
        let mut slashed: Vec<char> = Vec::new();
        slashed.push('/');
        let mut i: usize = 0;
        while i < ctx.len()
            invariant
                i <= ctx.len(),
                needle@ == ctx@.take(i as int),
                slashed@ == seq!['/'] + ctx@.take(i as int),
            decreases ctx.len() - i,
        {
            needle.push(ctx[i]);
            slashed.push(ctx[i]);
            assert(ctx@.take(i + 1) =~= ctx@.take(i as int).push(ctx@[i as int]));
            i = i + 1;
        }
        needle.push('/');
        slashed.push('/');
        let mut j: usize = 0;
        while j < rel.len()
            invariant
                j <= rel.len(),
                needle@ == ctx@ + seq!['/'] + rel@.take(j as int),
                slashed@ == seq!['/'] + ctx@ + seq!['/'] + rel@.take(j as int),
            decreases rel.len() - j,
        {
            needle.push(rel[j]);
            slashed.push(rel[j]);
            assert(rel@.take(j + 1) =~= rel@.take(j as int).push(rel@[j as int]));
            j = j + 1;
        }
        assert(ctx@.take(ctx@.len() as int) =~= ctx@);
        assert(rel@.take(rel@.len() as int) =~= rel@);
        assert(slashed@ =~= seq!['/'] + (ctx@ + seq!['/'] + rel@));
        return chars_eq(p.as_slice(), needle.as_slice()) || chars_ends_with(
            p.as_slice(),
            slashed.as_slice(),
        );
    }
    let mut k: usize = 0;
    while k < p.len() && p[k] != '/'
        invariant
            k <= p.len(),
            forall|j: int| 0 <= j < k ==> p@[j] != '/',
        decreases p.len() - k,
    {
        k = k + 1;
    }
    if k == p.len() {
        return false;
    }
    proof {
        assert(exists|i: int| 0 <= i < p@.len() && p@[i] == '/');
        let q = choose|i: int| 0 <= i < p@.len() && p@[i] == '/' && forall|j: int| 0 <= j < i ==> p@[j] != '/';
        assert(q == k);
    }
    let head = local_vec(&p, 0, k);
    let cl = local_vec(&ctx, 0, ctx.len());
    assert(p@.subrange(0, k as int) =~= p@.take(k as int));
    assert(ctx@.subrange(0, ctx@.len() as int) =~= ctx@);
    let mut rest: Vec<char> = Vec::new();
    let mut j: usize = k + 1;
    while j < p.len()
        invariant
            k + 1 <= j <= p.len(),
            rest@ == p@.subrange(k + 1, j as int),
        decreases p.len() - j,
    {
        rest.push(p[j]);
        assert(p@.subrange(k + 1, j + 1) =~= p@.subrange(k + 1, j as int).push(p@[j as int]));
        j = j + 1;
    }
    assert(rest@ =~= p@.skip(k + 1));
    chars_eq(head.as_slice(), cl.as_slice()) && chars_eq(rest.as_slice(), rel.as_slice())
}

/// UBL syntax prohibitions: rule id, context, relative path.
pub open spec fn ubl_paths_spec() -> Seq<(&'static str, &'static str, &'static str)> {
    seq![
        ("UBL-CR-001", "/ubl:Invoice", "ext:UBLExtensions"),
        ("UBL-CR-002", "/ubl:Invoice", "cbc:UBLVersionID"),
        ("UBL-CR-003", "/ubl:Invoice", "cbc:ProfileExecutionID"),
        ("UBL-CR-004", "/ubl:Invoice", "cbc:CopyIndicator"),
        ("UBL-CR-005", "/ubl:Invoice", "cbc:UUID"),
        ("UBL-CR-006", "/ubl:Invoice", "cbc:IssueTime"),
        ("UBL-CR-007", "/ubl:Invoice", "cbc:PricingCurrencyCode"),
        ("UBL-CR-008", "/ubl:Invoice", "cbc:PaymentCurrencyCode"),
        ("UBL-CR-009", "/ubl:Invoice", "cbc:PaymentAlternativeCurrencyCode"),
        ("UBL-CR-010", "/ubl:Invoice", "cbc:AccountingCostCode"),
        ("UBL-CR-011", "/ubl:Invoice", "cbc:LineCountNumeric"),
    ]
}

/// UBL syntax prohibitions.
pub fn ubl_forbidden_paths() -> (v: Vec<(&'static str, &'static str, &'static str)>)
    ensures
        v@ == ubl_paths_spec(),
{
    let mut v = Vec::new();
    v.push(("UBL-CR-001", "/ubl:Invoice", "ext:UBLExtensions"));
    v.push(("UBL-CR-002", "/ubl:Invoice", "cbc:UBLVersionID"));
    v.push(("UBL-CR-003", "/ubl:Invoice", "cbc:ProfileExecutionID"));
    v.push(("UBL-CR-004", "/ubl:Invoice", "cbc:CopyIndicator"));
    v.push(("UBL-CR-005", "/ubl:Invoice", "cbc:UUID"));
    v.push(("UBL-CR-006", "/ubl:Invoice", "cbc:IssueTime"));
    v.push(("UBL-CR-007", "/ubl:Invoice", "cbc:PricingCurrencyCode"));
    v.push(("UBL-CR-008", "/ubl:Invoice", "cbc:PaymentCurrencyCode"));
    v.push(("UBL-CR-009", "/ubl:Invoice", "cbc:PaymentAlternativeCurrencyCode"));
    v.push(("UBL-CR-010", "/ubl:Invoice", "cbc:AccountingCostCode"));
    v.push(("UBL-CR-011", "/ubl:Invoice", "cbc:LineCountNumeric"));
    assert(v@ =~= ubl_paths_spec());
    v
}

/// CII syntax prohibitions: rule id, context, relative path.
pub open spec fn cii_paths_spec() -> Seq<(&'static str, &'static str, &'static str)> {
    Seq::empty()
}

/// CII syntax prohibitions.
pub fn cii_forbidden_paths() -> (v: Vec<(&'static str, &'static str, &'static str)>)
    ensures
        v@ == cii_paths_spec(),
{
    Vec::new()
}

/// Forbidden UBL attributes: rule id, attribute name.
pub open spec fn ubl_attributes_spec() -> Seq<(&'static str, &'static str)> {
    Seq::empty()
}

/// Forbidden UBL attributes.
pub fn ubl_forbidden_attributes() -> (v: Vec<(&'static str, &'static str)>)
    ensures
        v@ == ubl_attributes_spec(),
{
    Vec::new()
}

/// Id of the first rule in the table that a path matches.
pub open spec fn first_path_hit(
    table: Seq<(&'static str, &'static str, &'static str)>,
    path: Seq<char>,
) -> Option<&'static str>
    decreases table.len(),
{
    if table.len() == 0 {
        None
    } else if matches_rule(path, table[0].1@, table[0].2@) {
        Some(table[0].0)
    } else {
        first_path_hit(table.drop_first(), path)
    }
}

fn find_path(table: &Vec<(&'static str, &'static str, &'static str)>, path: &str) -> (r: Option<
    &'static str,
>)
    ensures
        r == first_path_hit(table@, path@),
{
    let mut i: usize = 0;
    assert(table@.skip(0) =~= table@);
    while i < table.len()
        invariant
            i <= table.len(),
            first_path_hit(table@, path@) == first_path_hit(table@.skip(i as int), path@),
        decreases table.len() - i,
    {
        let (id, ctx, rel) = table[i];
        assert(table@.skip(i as int)[0] == table@[i as int]);
        assert(table@.skip(i as int).drop_first() =~= table@.skip(i + 1));
        if path_matches(path, ctx, rel) {
            return Some(id);
        }
        i = i + 1;
    }
    None
}

/// UBL rule id that forbids the path, if any.
pub fn ubl_forbidden_path(path: &str) -> (r: Option<&'static str>)
    ensures
        r == first_path_hit(ubl_paths_spec(), path@),
{
    let t = ubl_forbidden_paths();
    find_path(&t, path)
}

/// CII rule id that forbids the path, if any.
pub fn cii_forbidden_path(path: &str) -> (r: Option<&'static str>)
    ensures
        r == first_path_hit(cii_paths_spec(), path@),
{
    let t = cii_forbidden_paths();
    find_path(&t, path)
}

/// Id of the first rule forbidding an attribute name.
pub open spec fn first_attribute_hit(table: Seq<(&'static str, &'static str)>, name: Seq<char>) -> Option<
    &'static str,
>
    decreases table.len(),
{
    if table.len() == 0 {
        None
    } else if table[0].1@ == name {
        Some(table[0].0)
    } else {
        first_attribute_hit(table.drop_first(), name)
    }
}

/// UBL rule id that forbids an attribute name, if any.
pub fn ubl_forbidden_attribute(name: &str) -> (r: Option<&'static str>)
    ensures
        r == first_attribute_hit(ubl_attributes_spec(), name@),
{
    let table = ubl_forbidden_attributes();
    let mut i: usize = 0;
    assert(table@.skip(0) =~= table@);
    while i < table.len()
        invariant
            i <= table.len(),
            table@ == ubl_attributes_spec(),
            first_attribute_hit(table@, name@) == first_attribute_hit(table@.skip(i as int), name@),
        decreases table.len() - i,
    {
        let (id, a) = table[i];
        assert(table@.skip(i as int)[0] == table@[i as int]);
        assert(table@.skip(i as int).drop_first() =~= table@.skip(i + 1));
        if str_eq(a, name) {
            return Some(id);
        }
        i = i + 1;
    }
    None
}


/// UBL extension components namespace.
pub const NS_EXT: &'static str = "urn:oasis:names:specification:ubl:schema:xsd:CommonExtensionComponents-2";

/// The name of an element in a written path: the customary prefix of its
/// namespace and its local name; the local name alone for the document
/// namespaces and unknown ones.
pub open spec fn qualified_name(n: XmlNodeView) -> Seq<char> {
    let l = n.local;
    let ns = n.namespace;
    if ns == crate::formats::ubl_write::NS_CAC@ {
        "cac:"@ + l
    } else if ns == crate::formats::ubl_write::NS_CBC@ {
        "cbc:"@ + l
    } else if ns == NS_EXT@ {
        "ext:"@ + l
    } else if ns == crate::formats::cii_write::NS_RAM@ {
        "ram:"@ + l
    } else if ns == crate::formats::cii_write::NS_RSM@ {
        "rsm:"@ + l
    } else if ns == crate::formats::cii_write::NS_UDT@ {
        "udt:"@ + l
    } else {
        l
    }
}

/// The path of the element at `k`: the qualified names of its element
/// ancestors and its own, joined by `/` (at most `fuel` ancestors).
pub open spec fn path_from(doc: Seq<XmlNodeView>, k: int, fuel: nat) -> Seq<char>
    decreases fuel,
{
    match parent_index(doc, k) {
        Some(p) => if doc[p].element && fuel > 0 {
            path_from(doc, p, (fuel - 1) as nat) + "/"@ + qualified_name(doc[k])
        } else {
            qualified_name(doc[k])
        },
        None => qualified_name(doc[k]),
    }
}

/// The rule that forbids a path in the syntax.
pub open spec fn forbidden_path(path: Seq<char>, syntax: Syntax) -> Option<&'static str> {
    match syntax {
        Syntax::Ubl => first_path_hit(ubl_paths_spec(), path),
        Syntax::Cii => first_path_hit(cii_paths_spec(), path),
    }
}

/// `path (id)`.
pub open spec fn hit_text(path: Seq<char>, id: &'static str) -> Seq<char> {
    path + " ("@ + id@ + ")"@
}

/// Hits of the first `upto` attributes of an element at `path` (UBL).
pub open spec fn attribute_hits(attrs: Seq<(Seq<char>, Seq<char>)>, path: Seq<char>, upto: int) -> Seq<Seq<char>>
    decreases upto,
{
    if upto <= 0 {
        Seq::empty()
    } else {
        let name = attrs[upto - 1].0;
        attribute_hits(attrs, path, upto - 1) + match first_attribute_hit(ubl_attributes_spec(), name) {
            Some(id) => seq![hit_text(path + "/@"@ + name, id)],
            None => Seq::empty(),
        }
    }
}

/// Hits of the node at `k`: its path, then (UBL) its attributes.
pub open spec fn node_hits(doc: Seq<XmlNodeView>, k: int, syntax: Syntax) -> Seq<Seq<char>> {
    if !doc[k].element {
        Seq::empty()
    } else {
        let path = path_from(doc, k, doc.len() as nat);
        (match forbidden_path(path, syntax) {
            Some(id) => seq![hit_text(path, id)],
            None => Seq::empty(),
        }) + if syntax == Syntax::Ubl {
            attribute_hits(doc[k].attributes, path, doc[k].attributes.len() as int)
        } else {
            Seq::empty()
        }
    }
}

/// Hits of the first `upto` nodes, in document order.
pub open spec fn scan_hits(doc: Seq<XmlNodeView>, syntax: Syntax, upto: int) -> Seq<Seq<char>>
    decreases upto,
{
    if upto <= 0 {
        Seq::empty()
    } else {
        scan_hits(doc, syntax, upto - 1) + node_hits(doc, upto - 1, syntax)
    }
}

/// Texts of a list of strings.
pub open spec fn texts(v: Seq<String>) -> Seq<Seq<char>> {
    Seq::new(v.len(), |i: int| v[i]@)
}

/// The qualified name of the element at `k`.
fn qualified(doc: &Vec<XmlNode>, k: usize) -> (r: String)
    requires
        k < doc.len(),
    ensures
        r@ == qualified_name(node_views(doc@)[k as int]),
{
    let n = &doc[k];
    assert(node_views(doc@)[k as int] == n@);
    let ns = n.namespace.as_str();
    let prefix: Option<&str> = if str_eq(ns, crate::formats::ubl_write::NS_CAC) {
        Some("cac:")
    } else if str_eq(ns, crate::formats::ubl_write::NS_CBC) {
        Some("cbc:")
    } else if str_eq(ns, NS_EXT) {
        Some("ext:")
    } else if str_eq(ns, crate::formats::cii_write::NS_RAM) {
        Some("ram:")
    } else if str_eq(ns, crate::formats::cii_write::NS_RSM) {
        Some("rsm:")
    } else if str_eq(ns, crate::formats::cii_write::NS_UDT) {
        Some("udt:")
    } else {
        None
    };
    match prefix {
        Some(p) => {
            let mut s = owned(p);
            s.append(n.local.as_str());
            s
        },
        None => owned(n.local.as_str()),
    }
}

/// The path of the element at `k`.
fn element_path(doc: &Vec<XmlNode>, k: usize, fuel: usize) -> (r: String)
    requires
        k < doc.len(),
    ensures
        r@ == path_from(node_views(doc@), k as int, fuel as nat),
    decreases fuel,
{
    match parent_of(doc, k) {
        Some(p) => {
            assert(node_views(doc@)[p as int] == doc@[p as int]@);
            if doc[p].element && fuel > 0 {
                let mut s = element_path(doc, p, fuel - 1);
                s.append("/");
                let q = qualified(doc, k);
                s.append(q.as_str());
                s
            } else {
                qualified(doc, k)
            }
        },
        None => qualified(doc, k),
    }
}

/// The rule that forbids a path in the syntax.
fn forbidden(path: &str, syntax: Syntax) -> (r: Option<&'static str>)
    ensures
        r == forbidden_path(path@, syntax),
{
    match syntax {
        Syntax::Ubl => ubl_forbidden_path(path),
        Syntax::Cii => cii_forbidden_path(path),
    }
}

/// `path (id)`.
fn hit_string(path: &str, id: &'static str) -> (r: String)
    ensures
        r@ == hit_text(path@, id),
{
    let mut s = owned(path);
    s.append(" (");
    s.append(id);
    s.append(")");
    s
}

/// The hits of the node at `k`, appended.
fn scan_node(doc: &Vec<XmlNode>, k: usize, syntax: Syntax, hits: &mut Vec<String>)
    requires
        k < doc.len(),
    ensures
        texts(final(hits)@) == texts(old(hits)@) + node_hits(node_views(doc@), k as int, syntax),
{
    let ghost vs = node_views(doc@);
    let ghost h0 = texts(hits@);
    assert(vs[k as int] == doc@[k as int]@);
    if !doc[k].element {
        assert(h0 + Seq::<Seq<char>>::empty() =~= h0);
        return;
    }
    let path = element_path(doc, k, doc.len());
    let ghost first: Seq<Seq<char>> = Seq::empty();
    match forbidden(path.as_str(), syntax) {
        Some(id) => {
            hits.push(hit_string(path.as_str(), id));
            proof {
                first = seq![hit_text(path@, id)];
                assert(texts(hits@) =~= h0 + first);
            }
        },
        None => {
            assert(texts(hits@) =~= h0 + first);
        },
    }
    if syntax == Syntax::Ubl {
        let n = &doc[k];
        let ghost attrs = vs[k as int].attributes;
        let mut i: usize = 0;
        while i < n.attributes.len()
            invariant
                n == &doc@[k as int],
                attrs == doc@[k as int]@.attributes,
                i <= n.attributes.len(),
                texts(hits@) == h0 + first + attribute_hits(attrs, path@, i as int),
            decreases n.attributes.len() - i,
        {
            let name = n.attributes[i].name.as_str();
            assert(attrs[i as int].0 == name@);
            let ghost before = texts(hits@);
            match ubl_forbidden_attribute(name) {
                Some(id) => {
                    let mut at = owned(path.as_str());
                    at.append("/@");
                    at.append(name);
                    hits.push(hit_string(at.as_str(), id));
                    assert(texts(hits@) =~= before + seq![hit_text(path@ + "/@"@ + name@, id)]);
                },
                None => {
                    assert(texts(hits@) =~= before + Seq::<Seq<char>>::empty());
                },
            }
            i = i + 1;
        }
        assert(h0 + first + attribute_hits(attrs, path@, attrs.len() as int) =~= h0 + node_hits(vs, k as int, syntax));
    } else {
        assert(h0 + first =~= h0 + node_hits(vs, k as int, syntax));
    }
}

/// Walk a written document and list the prohibition hits, in document
/// order: `path (id)` for a forbidden element, `path/@name (id)` for a
/// forbidden UBL attribute. A document that does not parse has none.
pub fn scan_written(xml: &str, syntax: Syntax) -> (r: Vec<String>)
    ensures
        match parsed_nodes(xml@) {
            Some(doc) => texts(r@) == scan_hits(doc, syntax, doc.len() as int),
            None => r@.len() == 0,
        },
{
    let mut hits: Vec<String> = Vec::new();
    let doc = match parse_xml(xml) {
        Ok(d) => d,
        Err(_) => {
            return hits;
        },
    };
    let ghost vs = node_views(doc@);
    let mut k: usize = 0;
    assert(texts(hits@) =~= scan_hits(vs, syntax, 0));
    while k < doc.len()
        invariant
            vs == node_views(doc@),
            k <= doc.len(),
            texts(hits@) == scan_hits(vs, syntax, k as int),
        decreases doc.len() - k,
    {
        scan_node(&doc, k, syntax, &mut hits);
        k = k + 1;
    }
    hits
}

} // verus!
