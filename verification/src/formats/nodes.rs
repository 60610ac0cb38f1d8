//! Walking a parsed document: parents by identity, ancestors, child text,
//! elements by name, and appending fatal findings as plain values.
use vstd::prelude::*;
use crate::bt::Path;
use crate::formats::tree::{XmlNode, XmlNodeView, node_views, is_named_child, named_children};
use crate::report::{Finding, Report, Severity};
use crate::text::str_eq;

verus! {

/// A fatal finding as plain values: rule id, location, message.
pub type Hit = (Seq<char>, Path, Seq<char>);

/// The findings of a list as plain values.
pub open spec fn hits(s: Seq<Finding>) -> Seq<Hit> {
    Seq::new(s.len(), |i: int| (s[i].id@, s[i].path, s[i].message@))
}

/// `new` is `old` with fatal findings appended whose ids, paths and messages
/// are `h`, in that order; the profile slug and the rule count are kept.
pub open spec fn appended(old: Report, new: Report, h: Seq<Hit>) -> bool {
    &&& new.profile_slug == old.profile_slug
    &&& new.rules_checked == old.rules_checked
    &&& old.findings@.len() <= new.findings@.len()
    &&& new.findings@.subrange(0, old.findings@.len() as int) == old.findings@
    &&& hits(new.findings@.subrange(old.findings@.len() as int, new.findings@.len() as int)) == h
    &&& forall|i: int| old.findings@.len() <= i < new.findings@.len() ==> (#[trigger] new.findings@[i]).severity == Severity::Fatal
}

/// Appending nothing.
pub proof fn lemma_appended_none(r: Report)
    ensures
        appended(r, r, Seq::empty()),
{
    assert(r.findings@.subrange(0, r.findings@.len() as int) =~= r.findings@);
    assert(hits(r.findings@.subrange(r.findings@.len() as int, r.findings@.len() as int)) =~= Seq::<Hit>::empty());
}

/// Two appending steps are one, with the hits of both in order.
pub proof fn lemma_appended_trans(a: Report, b: Report, c: Report, h1: Seq<Hit>, h2: Seq<Hit>)
    requires
        appended(a, b, h1),
        appended(b, c, h2),
    ensures
        appended(a, c, h1 + h2),
{
    let n = a.findings@.len() as int;
    let m = b.findings@.len() as int;
    let k = c.findings@.len() as int;
    assert forall|i: int| 0 <= i < n implies c.findings@[i] == a.findings@[i] by {
        assert(c.findings@.subrange(0, m)[i] == b.findings@[i]);
        assert(b.findings@.subrange(0, n)[i] == a.findings@[i]);
    }
    assert(c.findings@.subrange(0, n) =~= a.findings@);
    assert forall|i: int| n <= i < m implies c.findings@[i] == b.findings@[i] by {
        assert(c.findings@.subrange(0, m)[i] == b.findings@[i]);
    }
    let hb = hits(b.findings@.subrange(n, m));
    let hc = hits(c.findings@.subrange(m, k));
    assert(hb.len() == m - n);
    assert(hc.len() == k - m);
    assert forall|i: int| 0 <= i < k - n implies hits(c.findings@.subrange(n, k))[i] == (h1 + h2)[i] by {
        if i < m - n {
            assert(hb[i] == h1[i]);
            assert(c.findings@[n + i] == b.findings@[n + i]);
        } else {
            assert(hc[i - (m - n)] == h2[i - (m - n)]);
        }
    }
    assert(hits(c.findings@.subrange(n, k)) =~= h1 + h2);
    assert forall|i: int| n <= i < k implies (#[trigger] c.findings@[i]).severity == Severity::Fatal by {
        if i < m {
            assert(c.findings@[i] == b.findings@[i]);
        }
    }
}

/// Append a fatal finding.
pub fn push_hit(report: &mut Report, id: &'static str, path: Path, message: String)
    ensures
        appended(*old(report), *final(report), seq![(id@, path, message@)]),
{
    let ghost before = *report;
    report.push(Finding::fatal(id, path, message));
    proof {
        let n = before.findings@.len() as int;
        assert(report.findings@.subrange(0, n) =~= before.findings@);
        assert(hits(report.findings@.subrange(n, n + 1)) =~= seq![(id@, path, message@)]);
    }
}

/// First index at or after `from` of a node with the identity.
pub open spec fn first_with_id(doc: Seq<XmlNodeView>, id: usize, from: int) -> Option<int>
    decreases doc.len() - from,
{
    if from < 0 || from >= doc.len() {
        None
    } else if doc[from].id == id {
        Some(from)
    } else {
        first_with_id(doc, id, from + 1)
    }
}

/// A found index is in range and carries the identity.
pub proof fn lemma_first_with_id(doc: Seq<XmlNodeView>, id: usize, from: int)
    ensures
        first_with_id(doc, id, from) matches Some(j) ==> 0 <= j < doc.len() && doc[j].id == id,
    decreases doc.len() - from,
{
    if from >= 0 && from < doc.len() && doc[from].id != id {
        lemma_first_with_id(doc, id, from + 1);
    }
}

/// Index of the node with the identity: its own position when the node
/// there carries it (a parser numbers nodes in document order), else the
/// first node that carries it.
pub open spec fn index_of_id(doc: Seq<XmlNodeView>, id: usize) -> Option<int> {
    if (id as int) < doc.len() && doc[id as int].id == id {
        Some(id as int)
    } else {
        first_with_id(doc, id, 0)
    }
}

/// Index of the node with the identity.
pub fn find_id(doc: &Vec<XmlNode>, id: usize) -> (r: Option<usize>)
    ensures
        index_of_id(node_views(doc@), id) == match r {
            Some(j) => Some(j as int),
            None => None::<int>,
        },
        r matches Some(j) ==> j < doc.len() && doc@[j as int].id == id,
{
    let ghost vs = node_views(doc@);
    if id < doc.len() && doc[id].id == id {
        assert(vs[id as int].id == id);
        return Some(id);
    }
    assert(!((id as int) < vs.len() && vs[id as int].id == id));
    let mut j: usize = 0;
    while j < doc.len()
        invariant
            vs == node_views(doc@),
            j <= doc.len(),
            first_with_id(vs, id, 0) == first_with_id(vs, id, j as int),
            !((id as int) < vs.len() && vs[id as int].id == id),
        decreases doc.len() - j,
    {
        assert(vs[j as int].id == doc@[j as int].id);
        if doc[j].id == id {
            assert(first_with_id(vs, id, j as int) == Some(j as int));
            return Some(j);
        }
        assert(first_with_id(vs, id, j as int) == first_with_id(vs, id, j + 1));
        j = j + 1;
    }
    None
}

/// Index of the parent of the node at `k`.
pub open spec fn parent_index(doc: Seq<XmlNodeView>, k: int) -> Option<int> {
    match doc[k].parent {
        Some(p) => index_of_id(doc, p),
        None => None,
    }
}

/// A parent index is in range.
pub proof fn lemma_parent_index(doc: Seq<XmlNodeView>, k: int)
    ensures
        parent_index(doc, k) matches Some(p) ==> 0 <= p < doc.len(),
{
    if let Some(p) = doc[k].parent {
        lemma_first_with_id(doc, p, 0);
    }
}

/// Index of the parent of the node at `k`.
pub fn parent_of(doc: &Vec<XmlNode>, k: usize) -> (r: Option<usize>)
    requires
        k < doc.len(),
    ensures
        parent_index(node_views(doc@), k as int) == match r {
            Some(j) => Some(j as int),
            None => None::<int>,
        },
        r matches Some(j) ==> j < doc.len(),
{
    assert(node_views(doc@)[k as int].parent == doc@[k as int].parent);
    match doc[k].parent {
        Some(p) => find_id(doc, p),
        None => None,
    }
}

/// Texts of the children of `p` among the first `upto` nodes, joined in
/// document order (an element child gives the text of its own first child).
pub open spec fn child_texts(doc: Seq<XmlNodeView>, p: int, upto: int) -> Seq<char>
    decreases upto,
{
    if upto <= 0 {
        Seq::empty()
    } else {
        let j = upto - 1;
        let t = if doc[j].parent == Some(doc[p].id) {
            match doc[j].text {
                Some(t) => t,
                None => Seq::empty(),
            }
        } else {
            Seq::empty()
        };
        child_texts(doc, p, upto - 1) + t
    }
}

/// The joined text of the children of a node.
pub open spec fn text_concat(doc: Seq<XmlNodeView>, p: int) -> Seq<char> {
    child_texts(doc, p, doc.len() as int)
}

/// The joined text of the children of the node at `p`.
pub fn joined_text(doc: &Vec<XmlNode>, p: usize) -> (r: String)
    requires
        p < doc.len(),
    ensures
        r@ == text_concat(node_views(doc@), p as int),
{
    let ghost vs = node_views(doc@);
    let pid = doc[p].id;
    let mut r = String::new();
    let mut j: usize = 0;
    while j < doc.len()
        invariant
            vs == node_views(doc@),
            p < doc.len(),
            pid == vs[p as int].id,
            j <= doc.len(),
            r@ == child_texts(vs, p as int, j as int),
        decreases doc.len() - j,
    {
        assert(vs[j as int] == doc@[j as int]@);
        if doc[j].parent == Some(pid) {
            match &doc[j].text {
                Some(t) => {
                    r.append(t.as_str());
                },
                None => {
                    assert(child_texts(vs, p as int, j + 1) =~= r@);
                },
            }
        } else {
            assert(child_texts(vs, p as int, j + 1) =~= r@);
        }
        j = j + 1;
    }
    r
}

/// The node at `p` has an element child.
pub open spec fn has_element_child(doc: Seq<XmlNodeView>, p: int) -> bool {
    exists|j: int| 0 <= j < doc.len() && doc[j].element && doc[j].parent == Some(doc[p].id)
}

/// The node at `p` has an element child.
pub fn any_element_child(doc: &Vec<XmlNode>, p: usize) -> (r: bool)
    requires
        p < doc.len(),
    ensures
        r == has_element_child(node_views(doc@), p as int),
{
    let ghost vs = node_views(doc@);
    let pid = doc[p].id;
    let mut j: usize = 0;
    while j < doc.len()
        invariant
            vs == node_views(doc@),
            p < doc.len(),
            pid == vs[p as int].id,
            j <= doc.len(),
            forall|k: int| 0 <= k < j ==> !(#[trigger] vs[k].element && vs[k].parent == Some(pid)),
        decreases doc.len() - j,
    {
        assert(vs[j as int] == doc@[j as int]@);
        if doc[j].element && doc[j].parent == Some(pid) {
            return true;
        }
        j = j + 1;
    }
    false
}

/// Indices of the elements with the local name among the first `upto`
/// nodes, in document order.
pub open spec fn named_elements(doc: Seq<XmlNodeView>, name: Seq<char>, upto: int) -> Seq<int>
    decreases upto,
{
    if upto <= 0 {
        Seq::empty()
    } else if doc[upto - 1].element && doc[upto - 1].local == name {
        named_elements(doc, name, upto - 1).push(upto - 1)
    } else {
        named_elements(doc, name, upto - 1)
    }
}

/// Named elements are in range and carry the name.
pub proof fn lemma_named_elements(doc: Seq<XmlNodeView>, name: Seq<char>, upto: int)
    requires
        upto <= doc.len(),
    ensures
        forall|i: int| 0 <= i < named_elements(doc, name, upto).len() ==> 0 <= #[trigger] named_elements(doc, name, upto)[i] < upto
            && doc[named_elements(doc, name, upto)[i]].element && doc[named_elements(doc, name, upto)[i]].local == name,
    decreases upto,
{
    if upto > 0 {
        lemma_named_elements(doc, name, upto - 1);
    }
}

/// All elements with the local name, in document order.
pub fn elements_named(doc: &Vec<XmlNode>, name: &str) -> (r: Vec<usize>)
    ensures
        r@.len() == named_elements(node_views(doc@), name@, doc@.len() as int).len(),
        forall|i: int| 0 <= i < r@.len() ==> r@[i] as int == #[trigger] named_elements(node_views(doc@), name@, doc@.len() as int)[i],
        forall|i: int| 0 <= i < r@.len() ==> #[trigger] r@[i] < doc.len(),
{
    let ghost vs = node_views(doc@);
    let mut r: Vec<usize> = Vec::new();
    let mut j: usize = 0;
    while j < doc.len()
        invariant
            vs == node_views(doc@),
            j <= doc.len(),
            r@.len() == named_elements(vs, name@, j as int).len(),
            forall|i: int| 0 <= i < r@.len() ==> r@[i] as int == #[trigger] named_elements(vs, name@, j as int)[i],
            forall|i: int| 0 <= i < r@.len() ==> #[trigger] r@[i] < j,
        decreases doc.len() - j,
    {
        assert(vs[j as int] == doc@[j as int]@);
        if doc[j].element && str_eq(doc[j].local.as_str(), name) {
            r.push(j);
        }
        j = j + 1;
    }
    r
}

/// Child indices are in range and are named children.
pub proof fn lemma_named_children(doc: Seq<XmlNodeView>, p: int, name: Seq<char>, upto: int)
    requires
        upto <= doc.len(),
    ensures
        forall|i: int| 0 <= i < named_children(doc, p, name, upto).len() ==> 0 <= #[trigger] named_children(doc, p, name, upto)[i] < upto
            && is_named_child(doc, p, named_children(doc, p, name, upto)[i], name),
    decreases upto,
{
    if upto > 0 {
        lemma_named_children(doc, p, name, upto - 1);
        let s = named_children(doc, p, name, upto - 1);
        if is_named_child(doc, p, upto - 1, name) {
            assert forall|i: int| 0 <= i < named_children(doc, p, name, upto).len() implies 0 <= #[trigger] named_children(doc, p, name, upto)[i] < upto
                && is_named_child(doc, p, named_children(doc, p, name, upto)[i], name) by {
                if i < s.len() {
                    assert(named_children(doc, p, name, upto)[i] == s[i]);
                }
            }
        }
    }
}

} // verus!
