//! An XML document as a list of nodes in document order, each with its
//! parent, name, attributes and text. `roxmltree` parses; everything read
//! from the nodes is this library's own logic.
use vstd::prelude::*;
use crate::text::{blank, is_blank, owned, str_eq, trim, trim_str};

verus! {

/// One attribute: local name and value.
#[derive(Debug, Clone)]
pub struct XmlAttribute {
    pub name: String,
    pub value: String,
}

/// One node of a parsed document.
#[derive(Debug, Clone)]
pub struct XmlNode {
    /// Identity of the node in its document.
    pub id: usize,
    /// Identity of the parent node; the document root has none.
    pub parent: Option<usize>,
    /// The node is an element.
    pub element: bool,
    /// Local name (empty for a node that is not an element).
    pub local: String,
    /// Namespace URI (empty when there is none).
    pub namespace: String,
    /// Attributes in document order.
    pub attributes: Vec<XmlAttribute>,
    /// For an element, the text of its first child when that is text; for a
    /// text or comment node, its text.
    pub text: Option<String>,
}

/// A node as plain values.
pub struct XmlNodeView {
    pub id: usize,
    pub parent: Option<usize>,
    pub element: bool,
    pub local: Seq<char>,
    pub namespace: Seq<char>,
    pub attributes: Seq<(Seq<char>, Seq<char>)>,
    pub text: Option<Seq<char>>,
}

impl View for XmlNode {
    type V = XmlNodeView;

    open spec fn view(&self) -> XmlNodeView {
        XmlNodeView {
            id: self.id,
            parent: self.parent,
            element: self.element,
            local: self.local@,
            namespace: self.namespace@,
            attributes: Seq::new(
                self.attributes@.len(),
                |i: int| (self.attributes@[i].name@, self.attributes@[i].value@),
            ),
            text: match self.text {
                Some(t) => Some(t@),
                None => None,
            },
        }
    }
}

/// The nodes of a document in document order, or the parser's error text.
pub uninterp spec fn parsed_xml(xml: Seq<char>) -> Result<Seq<XmlNodeView>, Seq<char>>;

/// The nodes of a document, when it parses.
pub open spec fn parsed_nodes(xml: Seq<char>) -> Option<Seq<XmlNodeView>> {
    match parsed_xml(xml) {
        Ok(v) => Some(v),
        Err(_) => None,
    }
}

/// The parser's error text, when the document does not parse.
pub open spec fn parse_error(xml: Seq<char>) -> Option<Seq<char>> {
    match parsed_xml(xml) {
        Ok(_) => None,
        Err(e) => Some(e),
    }
}

/// Views of a list of nodes.
pub open spec fn node_views(v: Seq<XmlNode>) -> Seq<XmlNodeView> {
    Seq::new(v.len(), |i: int| v[i]@)
}

/// Calls `roxmltree::Document::parse` and lists the nodes of the document in
/// document order as plain values. Claims only that the outcome is the named
/// [`parsed_xml`] of the text.
#[verifier::external_body]
pub fn parse_xml(xml: &str) -> (r: Result<Vec<XmlNode>, String>)
    ensures
        r matches Ok(v) ==> parsed_xml(xml@) is Ok && parsed_xml(xml@)->Ok_0 == node_views(v@),
        r matches Err(e) ==> parsed_xml(xml@) is Err && parsed_xml(xml@)->Err_0 == e@,
{
    match roxmltree::Document::parse(xml) {
        Ok(doc) => Ok(doc.descendants().map(|n| XmlNode {
            id: n.id().get_usize(),
            parent: n.parent().map(|p| p.id().get_usize()),
            element: n.is_element(),
            local: n.tag_name().name().to_owned(),
            namespace: n.tag_name().namespace().unwrap_or("").to_owned(),
            attributes: n.attributes().map(|a| XmlAttribute { name: a.name().to_owned(), value: a.value().to_owned() }).collect(),
            text: n.text().map(|t| t.to_owned()),
        }).collect()),
        Err(e) => Err(e.to_string()),
    }
}

/// `j` is an element child of the node at `p` with the local name.
pub open spec fn is_named_child(doc: Seq<XmlNodeView>, p: int, j: int, name: Seq<char>) -> bool {
    &&& 0 <= p < doc.len()
    &&& 0 <= j < doc.len()
    &&& doc[j].element
    &&& doc[j].parent == Some(doc[p].id)
    &&& doc[j].local == name
}

/// Index of the first element child of `p` with the local name.
/// An optional index as an integer.
pub open spec fn opt_int(o: Option<usize>) -> Option<int> {
    match o {
        Some(i) => Some(i as int),
        None => None,
    }
}

#[verifier::opaque]
pub open spec fn named_child(doc: Seq<XmlNodeView>, p: int, name: Seq<char>) -> Option<int> {
    if exists|j: int| is_named_child(doc, p, j, name) {
        Some(
            choose|j: int|
                is_named_child(doc, p, j, name) && forall|k: int|
                    0 <= k < j ==> !is_named_child(doc, p, k, name),
        )
    } else {
        None
    }
}

/// Indices of all element children of `p` with the local name, in document order.
pub open spec fn named_children(doc: Seq<XmlNodeView>, p: int, name: Seq<char>, upto: int) -> Seq<int>
    decreases upto,
{
    if upto <= 0 {
        Seq::empty()
    } else if is_named_child(doc, p, upto - 1, name) {
        named_children(doc, p, name, upto - 1).push(upto - 1)
    } else {
        named_children(doc, p, name, upto - 1)
    }
}

/// First element child of `p` with the local name.
pub fn child(doc: &Vec<XmlNode>, p: usize, name: &str) -> (r: Option<usize>)
    requires
        p < doc.len(),
    ensures
        match named_child(node_views(doc@), p as int, name@) {
            Some(j) => r == Some(j as usize),
            None => r is None,
        },
        r matches Some(j) ==> j < doc.len() && named_child(node_views(doc@), p as int, name@) == Some(j as int),
        named_child(node_views(doc@), p as int, name@) == opt_int(r),
{
    proof {
        reveal(named_child);
    }
    let pid = doc[p].id;
    let mut j: usize = 0;
    while j < doc.len()
        invariant
            p < doc.len(),
            pid == doc@[p as int].id,
            j <= doc.len(),
            forall|k: int| 0 <= k < j ==> !is_named_child(node_views(doc@), p as int, k, name@),
        decreases doc.len() - j,
    {
        let n = &doc[j];
        if n.element && n.parent == Some(pid) && str_eq(n.local.as_str(), name) {
            proof {
                reveal(named_child);
                assert(is_named_child(node_views(doc@), p as int, j as int, name@));
                let c = choose|c: int|
                    is_named_child(node_views(doc@), p as int, c, name@) && forall|k: int|
                        0 <= k < c ==> !is_named_child(node_views(doc@), p as int, k, name@);
                if c < j {
                } else if c > j {
                    assert(!is_named_child(node_views(doc@), p as int, j as int, name@));
                }
            }
            return Some(j);
        }
        j = j + 1;
    }
    None
}

/// All element children of `p` with the local name, in document order.
pub fn children(doc: &Vec<XmlNode>, p: usize, name: &str) -> (r: Vec<usize>)
    requires
        p < doc.len(),
    ensures
        r@.len() == named_children(node_views(doc@), p as int, name@, doc@.len() as int).len(),
        forall|i: int| 0 <= i < r@.len() ==> r@[i] as int == named_children(node_views(doc@), p as int, name@, doc@.len() as int)[i],
        forall|i: int| 0 <= i < r@.len() ==> r@[i] < doc.len(),
{
    let pid = doc[p].id;
    let mut r: Vec<usize> = Vec::new();
    let mut j: usize = 0;
    while j < doc.len()
        invariant
            p < doc.len(),
            pid == doc@[p as int].id,
            j <= doc.len(),
            r@.len() == named_children(node_views(doc@), p as int, name@, j as int).len(),
            forall|i: int| 0 <= i < r@.len() ==> r@[i] as int == named_children(node_views(doc@), p as int, name@, j as int)[i],
            forall|i: int| 0 <= i < r@.len() ==> r@[i] < j,
        decreases doc.len() - j,
    {
        let n = &doc[j];
        if n.element && n.parent == Some(pid) && str_eq(n.local.as_str(), name) {
            r.push(j);
        }
        j = j + 1;
    }
    r
}

/// The text of an optional string.
pub open spec fn opt_text(o: Option<String>) -> Option<Seq<char>> {
    match o {
        Some(x) => Some(x@),
        None => None,
    }
}

/// The text of an optional code.
pub open spec fn opt_code(o: Option<crate::code::Code>) -> Option<Seq<char>> {
    match o {
        Some(x) => Some(x@),
        None => None,
    }
}

/// The decimal of an optional percentage.
pub open spec fn opt_percent(o: Option<crate::numeric::Percentage>) -> Option<crate::dec::Dec> {
    match o {
        Some(x) => Some(x.dec()),
        None => None,
    }
}

/// An optional text parsed as a decimal (untrimmed).
pub open spec fn parsed_opt(t: Option<Seq<char>>) -> Option<crate::dec::Dec> {
    match t {
        Some(x) => crate::dec::decimal_parse(x),
        None => None,
    }
}

/// Text of a node, trimmed; `None` when absent or blank.
pub open spec fn node_text(n: XmlNodeView) -> Option<Seq<char>> {
    match n.text {
        Some(t) => if blank(t) {
            None
        } else {
            Some(trim(t))
        },
        None => None,
    }
}

/// Text of the node at `j`, trimmed; `None` when absent or blank.
pub fn text_of(doc: &Vec<XmlNode>, j: usize) -> (r: Option<String>)
    requires
        j < doc.len(),
    ensures
        match node_text(doc@[j as int]@) {
            Some(t) => r matches Some(s) && s@ == t,
            None => r is None,
        },
{
    match &doc[j].text {
        Some(t) => {
            if is_blank(t.as_str()) {
                None
            } else {
                Some(owned(trim_str(t.as_str())))
            }
        },
        None => None,
    }
}

/// Trimmed text of the first element child with the local name.
pub open spec fn child_text_spec(doc: Seq<XmlNodeView>, p: int, name: Seq<char>) -> Option<Seq<char>> {
    match named_child(doc, p, name) {
        Some(j) => node_text(doc[j]),
        None => None,
    }
}

/// Trimmed text of the first element child with the local name.
pub fn child_text(doc: &Vec<XmlNode>, p: usize, name: &str) -> (r: Option<String>)
    requires
        p < doc.len(),
    ensures
        match child_text_spec(node_views(doc@), p as int, name@) {
            Some(t) => r matches Some(s) && s@ == t,
            None => r is None,
        },
{
    match child(doc, p, name) {
        Some(j) => text_of(doc, j),
        None => None,
    }
}

/// Value of the first attribute with the name.
pub open spec fn attribute_spec(n: XmlNodeView, name: Seq<char>) -> Option<Seq<char>> {
    if exists|i: int| 0 <= i < n.attributes.len() && n.attributes[i].0 == name {
        let i = choose|i: int|
            0 <= i < n.attributes.len() && n.attributes[i].0 == name && forall|k: int|
                0 <= k < i ==> n.attributes[k].0 != name;
        Some(n.attributes[i].1)
    } else {
        None
    }
}

/// Value of the first attribute with the name.
pub fn attribute(doc: &Vec<XmlNode>, j: usize, name: &str) -> (r: Option<String>)
    requires
        j < doc.len(),
    ensures
        match attribute_spec(doc@[j as int]@, name@) {
            Some(v) => r matches Some(s) && s@ == v,
            None => r is None,
        },
{
    let n = &doc[j];
    let mut i: usize = 0;
    while i < n.attributes.len()
        invariant
            n == &doc@[j as int],
            i <= n.attributes@.len(),
            forall|k: int| 0 <= k < i ==> n.attributes@[k].name@ != name@,
            forall|k: int| 0 <= k < i ==> (#[trigger] doc@[j as int]@.attributes[k]).0 != name@,
        decreases n.attributes.len() - i,
    {
        if str_eq(n.attributes[i].name.as_str(), name) {
            proof {
                let a = doc@[j as int]@.attributes;
                assert(a[i as int].0 == name@);
                let c = choose|c: int|
                    0 <= c < a.len() && a[c].0 == name@ && forall|k: int|
                        0 <= k < c ==> a[k].0 != name@;
                if c < i {
                    assert(a[c].0 == n.attributes@[c].name@);
                } else if c > i {
                    assert(a[i as int].0 != name@);
                }
            }
            return Some(owned(n.attributes[i].value.as_str()));
        }
        i = i + 1;
    }
    None
}

/// Index of the document element: the first element whose parent is the
/// first node (the document root).
pub open spec fn root_element_spec(doc: Seq<XmlNodeView>) -> Option<int> {
    if doc.len() == 0 {
        None
    } else if exists|j: int| 0 <= j < doc.len() && doc[j].element && doc[j].parent == Some(doc[0].id) {
        Some(
            choose|j: int|
                0 <= j < doc.len() && doc[j].element && doc[j].parent == Some(doc[0].id) && forall|k: int|
                    0 <= k < j ==> !(doc[k].element && doc[k].parent == Some(doc[0].id)),
        )
    } else {
        None
    }
}

/// Index of the document element.
pub fn root_element(doc: &Vec<XmlNode>) -> (r: Option<usize>)
    ensures
        match root_element_spec(node_views(doc@)) {
            Some(j) => r == Some(j as usize),
            None => r is None,
        },
        r matches Some(j) ==> j < doc.len() && root_element_spec(node_views(doc@)) == Some(j as int),
{
    let ghost vs = node_views(doc@);
    if doc.len() == 0 {
        return None;
    }
    let rid = doc[0].id;
    assert(vs[0].id == rid);
    let mut j: usize = 0;
    while j < doc.len()
        invariant
            doc.len() > 0,
            vs == node_views(doc@),
            rid == vs[0].id,
            j <= doc.len(),
            forall|k: int| 0 <= k < j ==> !(#[trigger] vs[k].element && vs[k].parent == Some(rid)),
        decreases doc.len() - j,
    {
        assert(vs[j as int] == doc@[j as int]@);
        if doc[j].element && doc[j].parent == Some(rid) {
            proof {
                assert(vs[j as int].element && vs[j as int].parent == Some(vs[0].id));
                let c = choose|c: int|
                    0 <= c < vs.len() && vs[c].element && vs[c].parent == Some(vs[0].id)
                        && forall|k: int| 0 <= k < c ==> !(vs[k].element && vs[k].parent == Some(vs[0].id));
                if c < j {
                    assert(!(vs[c].element && vs[c].parent == Some(rid)));
                } else if c > j {
                    assert(!(vs[j as int].element && vs[j as int].parent == Some(vs[0].id)));
                }
            }
            return Some(j);
        }
        j = j + 1;
    }
    None
}

} // verus!
