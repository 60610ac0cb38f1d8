//! Peppol BIS 3 rules that are read from the document's structure rather
//! than from the model: empty elements, indicator values, one tax total
//! with subtotals, and at most one invoiced object per document and line.
use vstd::prelude::*;
use crate::bt::{BtId, Group, Path};
use crate::formats::nodes::{Hit, any_element_child, appended, elements_named, has_element_child, joined_text, lemma_appended_none, lemma_appended_trans, named_elements, parent_index, parent_of, push_hit, text_concat};
use crate::formats::tree::{XmlNode, XmlNodeView, attribute, attribute_spec, child, children, named_child, named_children, node_views, parse_xml, parsed_nodes, root_element, root_element_spec};
use crate::invoice::Invoice;
use crate::profile::Profile;
use crate::report::Report;
use crate::text::{blank, is_blank, owned, str_eq, trim, trim_str};

verus! {

/// R008: an empty element.
pub open spec fn r008_hit() -> Hit {
    (
        "PEPPOL-EN16931-R008"@,
        Path { group: Group::Document, index: None, term: None },
        "Document MUST not contain empty elements"@,
    )
}

/// R043: an indicator that is neither `true` nor `false`.
pub open spec fn r043_hit() -> Hit {
    (
        "PEPPOL-EN16931-R043"@,
        Path { group: Group::DocumentAllowance, index: None, term: None },
        "ChargeIndicator must be true or false"@,
    )
}

/// R044: a price-level charge.
pub open spec fn r044_hit() -> Hit {
    (
        "PEPPOL-EN16931-R044"@,
        Path { group: Group::Document, index: None, term: Some(BtId(147)) },
        "Price-level AllowanceCharge ChargeIndicator must be false"@,
    )
}

/// R053: not exactly one tax total with subtotals.
pub open spec fn r053_hit() -> Hit {
    (
        "PEPPOL-EN16931-R053"@,
        Path { group: Group::TaxBreakdown, index: None, term: None },
        "Only one tax total with tax subtotals MUST be provided"@,
    )
}

/// R080: more than one project reference on a credit note.
pub open spec fn r080_hit() -> Hit {
    (
        "PEPPOL-EN16931-R080"@,
        Path { group: Group::Document, index: None, term: Some(BtId(11)) },
        "At most one project reference is allowed"@,
    )
}

/// R006: more than one invoiced object on the document.
pub open spec fn r006_hit() -> Hit {
    (
        "PEPPOL-EN16931-R006"@,
        Path { group: Group::Document, index: None, term: Some(BtId(18)) },
        "Only one invoiced object is allowed on document level"@,
    )
}

/// R100: more than one invoiced object on line `i`.
pub open spec fn r100_hit(i: int) -> Hit {
    (
        "PEPPOL-EN16931-R100"@,
        Path { group: Group::Line, index: Some(i as usize), term: Some(BtId(128)) },
        "Only one invoiced object is allowed pr line"@,
    )
}

/// An element with no element child and only whitespace as text.
pub open spec fn empty_element(doc: Seq<XmlNodeView>, k: int) -> bool {
    doc[k].element && !has_element_child(doc, k) && blank(text_concat(doc, k))
}

/// R008 for each empty element among the first `upto` nodes.
pub open spec fn r008_hits(doc: Seq<XmlNodeView>, upto: int) -> Seq<Hit>
    decreases upto,
{
    if upto <= 0 {
        Seq::empty()
    } else {
        r008_hits(doc, upto - 1) + if empty_element(doc, upto - 1) {
            seq![r008_hit()]
        } else {
            Seq::empty()
        }
    }
}

/// An indicator text is `true` or `false` once trimmed.
pub open spec fn indicator_ok(t: Seq<char>) -> bool {
    trim(t) == "true"@ || trim(t) == "false"@
}

/// The node at `k` sits in an `AllowanceCharge` that sits in a `Price`.
pub open spec fn price_level(doc: Seq<XmlNodeView>, k: int) -> bool {
    match parent_index(doc, k) {
        Some(a) => doc[a].local == "AllowanceCharge"@ && match parent_index(doc, a) {
            Some(p) => doc[p].local == "Price"@,
            None => false,
        },
        None => false,
    }
}

/// R043 and R044 for a UBL `ChargeIndicator` at `k`.
pub open spec fn ubl_indicator_hits_at(doc: Seq<XmlNodeView>, k: int) -> Seq<Hit> {
    if doc[k].element && doc[k].local == "ChargeIndicator"@ {
        let t = text_concat(doc, k);
        (if !indicator_ok(t) {
            seq![r043_hit()]
        } else {
            Seq::empty()
        }) + (if price_level(doc, k) && trim(t) != "false"@ {
            seq![r044_hit()]
        } else {
            Seq::empty()
        })
    } else {
        Seq::empty()
    }
}

/// R043 and R044 over the first `upto` nodes.
pub open spec fn ubl_indicator_hits(doc: Seq<XmlNodeView>, upto: int) -> Seq<Hit>
    decreases upto,
{
    if upto <= 0 {
        Seq::empty()
    } else {
        ubl_indicator_hits(doc, upto - 1) + ubl_indicator_hits_at(doc, upto - 1)
    }
}

/// R043 for each CII `Indicator` among the first `upto` nodes.
pub open spec fn cii_indicator_hits(doc: Seq<XmlNodeView>, upto: int) -> Seq<Hit>
    decreases upto,
{
    if upto <= 0 {
        Seq::empty()
    } else {
        let k = upto - 1;
        cii_indicator_hits(doc, upto - 1) + if doc[k].element && doc[k].local == "Indicator"@
            && !indicator_ok(text_concat(doc, k)) {
            seq![r043_hit()]
        } else {
            Seq::empty()
        }
    }
}

/// How many of the first `upto` nodes of `ks` have an element child named `name`.
pub open spec fn count_having(doc: Seq<XmlNodeView>, ks: Seq<int>, name: Seq<char>, upto: int) -> nat
    decreases upto,
{
    if upto <= 0 {
        0
    } else {
        count_having(doc, ks, name, upto - 1) + if named_child(doc, ks[upto - 1], name) is Some {
            1nat
        } else {
            0nat
        }
    }
}

/// The first element child named `child` of the node at `j` has, trimmed,
/// the text `code`.
pub open spec fn typed(doc: Seq<XmlNodeView>, j: int, child: Seq<char>, code: Seq<char>) -> bool {
    match named_child(doc, j, child) {
        Some(c) => match doc[c].text {
            Some(t) => trim(t) == code,
            None => false,
        },
        None => false,
    }
}

/// How many of the first `upto` nodes of `ks` are typed `code`.
pub open spec fn count_typed(doc: Seq<XmlNodeView>, ks: Seq<int>, child: Seq<char>, code: Seq<char>, upto: int) -> nat
    decreases upto,
{
    if upto <= 0 {
        0
    } else {
        count_typed(doc, ks, child, code, upto - 1) + if typed(doc, ks[upto - 1], child, code) {
            1nat
        } else {
            0nat
        }
    }
}

/// All element children of `p` with the local name.
pub open spec fn kids(doc: Seq<XmlNodeView>, p: int, name: Seq<char>) -> Seq<int> {
    named_children(doc, p, name, doc.len() as int)
}

/// The lines of a UBL document: invoice lines, then credit note lines.
pub open spec fn ubl_lines(doc: Seq<XmlNodeView>, root: int) -> Seq<int> {
    kids(doc, root, "InvoiceLine"@) + kids(doc, root, "CreditNoteLine"@)
}

/// R100 for each of the first `upto` UBL lines with more than one document reference.
pub open spec fn ubl_line_hits(doc: Seq<XmlNodeView>, lines: Seq<int>, upto: int) -> Seq<Hit>
    decreases upto,
{
    if upto <= 0 {
        Seq::empty()
    } else {
        ubl_line_hits(doc, lines, upto - 1) + if kids(doc, lines[upto - 1], "DocumentReference"@).len() > 1 {
            seq![r100_hit(upto - 1)]
        } else {
            Seq::empty()
        }
    }
}

/// The Peppol syntax findings of a UBL document with its document element at `root`.
pub open spec fn ubl_hits(doc: Seq<XmlNodeView>, root: int) -> Seq<Hit> {
    let n = doc.len() as int;
    let totals = kids(doc, root, "TaxTotal"@);
    let refs = kids(doc, root, "AdditionalDocumentReference"@);
    let lines = ubl_lines(doc, root);
    r008_hits(doc, n) + ubl_indicator_hits(doc, n) + (if count_having(doc, totals, "TaxSubtotal"@, totals.len() as int) != 1 {
        seq![r053_hit()]
    } else {
        Seq::empty()
    }) + (if doc[root].local == "CreditNote"@ && count_typed(doc, refs, "DocumentTypeCode"@, "50"@, refs.len() as int) > 1 {
        seq![r080_hit()]
    } else {
        Seq::empty()
    }) + ubl_line_hits(doc, lines, lines.len() as int)
}

/// The first element of the document with the local name.
pub open spec fn first_named(doc: Seq<XmlNodeView>, name: Seq<char>) -> Option<int> {
    let s = named_elements(doc, name, doc.len() as int);
    if s.len() > 0 {
        Some(s[0])
    } else {
        None
    }
}

/// The trimmed text of the invoice currency under the settlement at `st`.
pub open spec fn settlement_currency(doc: Seq<XmlNodeView>, st: int) -> Seq<char> {
    match named_child(doc, st, "InvoiceCurrencyCode"@) {
        Some(c) => match doc[c].text {
            Some(t) => trim(t),
            None => trim(Seq::empty()),
        },
        None => trim(Seq::empty()),
    }
}

/// How many of the first `upto` nodes of `ks` carry `currencyID` equal,
/// trimmed, to `cur` (a missing attribute counts as empty).
pub open spec fn count_in_currency(doc: Seq<XmlNodeView>, ks: Seq<int>, cur: Seq<char>, upto: int) -> nat
    decreases upto,
{
    if upto <= 0 {
        0
    } else {
        let a = match attribute_spec(doc[ks[upto - 1]], "currencyID"@) {
            Some(v) => v,
            None => Seq::empty(),
        };
        count_in_currency(doc, ks, cur, upto - 1) + if trim(a) == cur {
            1nat
        } else {
            0nat
        }
    }
}

/// R053 for CII: not exactly one tax total amount in the invoice currency.
pub open spec fn cii_r053_hits(doc: Seq<XmlNodeView>) -> Seq<Hit> {
    match first_named(doc, "ApplicableHeaderTradeSettlement"@) {
        Some(st) => match named_child(doc, st, "SpecifiedTradeSettlementHeaderMonetarySummation"@) {
            Some(sum) => {
                let ks = kids(doc, sum, "TaxTotalAmount"@);
                if count_in_currency(doc, ks, settlement_currency(doc, st), ks.len() as int) != 1 {
                    seq![r053_hit()]
                } else {
                    Seq::empty()
                }
            },
            None => Seq::empty(),
        },
        None => Seq::empty(),
    }
}

/// R006 for CII: more than one invoiced object in the agreement.
pub open spec fn cii_r006_hits(doc: Seq<XmlNodeView>) -> Seq<Hit> {
    match first_named(doc, "ApplicableHeaderTradeAgreement"@) {
        Some(ag) => {
            let ks = kids(doc, ag, "AdditionalReferencedDocument"@);
            if count_typed(doc, ks, "TypeCode"@, "130"@, ks.len() as int) > 1 {
                seq![r006_hit()]
            } else {
                Seq::empty()
            }
        },
        None => Seq::empty(),
    }
}

/// The node at `j` is the node at `a` or lies under it, looking at most
/// `fuel` ancestors up.
pub open spec fn within(doc: Seq<XmlNodeView>, j: int, a: int, fuel: nat) -> bool
    decreases fuel,
{
    if j == a {
        true
    } else if fuel == 0 {
        false
    } else {
        match parent_index(doc, j) {
            Some(p) => within(doc, p, a, (fuel - 1) as nat),
            None => false,
        }
    }
}

/// An invoiced object under the line at `line`: an additional referenced
/// document typed `130`.
pub open spec fn line_object(doc: Seq<XmlNodeView>, line: int, j: int) -> bool {
    &&& doc[j].element
    &&& doc[j].local == "AdditionalReferencedDocument"@
    &&& within(doc, j, line, doc.len() as nat)
    &&& typed(doc, j, "TypeCode"@, "130"@)
}

/// How many of the first `upto` nodes are invoiced objects under the line.
pub open spec fn line_objects(doc: Seq<XmlNodeView>, line: int, upto: int) -> nat
    decreases upto,
{
    if upto <= 0 {
        0
    } else {
        line_objects(doc, line, upto - 1) + if line_object(doc, line, upto - 1) {
            1nat
        } else {
            0nat
        }
    }
}

/// R100 for each of the first `upto` CII lines with more than one invoiced object.
pub open spec fn cii_line_hits(doc: Seq<XmlNodeView>, lines: Seq<int>, upto: int) -> Seq<Hit>
    decreases upto,
{
    if upto <= 0 {
        Seq::empty()
    } else {
        cii_line_hits(doc, lines, upto - 1) + if line_objects(doc, lines[upto - 1], doc.len() as int) > 1 {
            seq![r100_hit(upto - 1)]
        } else {
            Seq::empty()
        }
    }
}

/// The Peppol syntax findings of a CII document.
pub open spec fn cii_hits(doc: Seq<XmlNodeView>) -> Seq<Hit> {
    let lines = named_elements(doc, "IncludedSupplyChainTradeLineItem"@, doc.len() as int);
    cii_indicator_hits(doc, doc.len() as int) + cii_r053_hits(doc) + cii_r006_hits(doc)
        + cii_line_hits(doc, lines, lines.len() as int)
}

/// The Peppol syntax findings of a parsed document, by its document element.
pub open spec fn peppol_hits(doc: Seq<XmlNodeView>) -> Seq<Hit> {
    match root_element_spec(doc) {
        Some(root) => if doc[root].local == "Invoice"@ || doc[root].local == "CreditNote"@ {
            ubl_hits(doc, root)
        } else if doc[root].local == "CrossIndustryInvoice"@ {
            cii_hits(doc)
        } else {
            Seq::empty()
        },
        None => Seq::empty(),
    }
}


/// A list of indices as integers.
pub open spec fn ints(v: Seq<usize>) -> Seq<int> {
    Seq::new(v.len(), |i: int| v[i] as int)
}

/// R008 for every empty element, in document order.
fn walk_empty(doc: &Vec<XmlNode>, report: &mut Report)
    ensures
        appended(*old(report), *final(report), r008_hits(node_views(doc@), doc@.len() as int)),
{
    let ghost vs = node_views(doc@);
    let ghost r0 = *report;
    proof {
        lemma_appended_none(*report);
    }
    let mut k: usize = 0;
    while k < doc.len()
        invariant
            vs == node_views(doc@),
            k <= doc.len(),
            appended(r0, *report, r008_hits(vs, k as int)),
        decreases doc.len() - k,
    {
        assert(vs[k as int] == doc@[k as int]@);
        let ghost r1 = *report;
        let empty = doc[k].element && !any_element_child(doc, k) && {
            let t = joined_text(doc, k);
            is_blank(t.as_str())
        };
        if empty {
            push_hit(report, "PEPPOL-EN16931-R008", Path::group(Group::Document), owned("Document MUST not contain empty elements"));
            proof {
                lemma_appended_trans(r0, r1, *report, r008_hits(vs, k as int), seq![r008_hit()]);
            }
        } else {
            proof {
                assert(r008_hits(vs, k as int) + Seq::<Hit>::empty() =~= r008_hits(vs, k as int));
            }
        }
        k = k + 1;
    }
}

/// The trimmed text is `true` or `false`.
fn indicator_text_ok(t: &str) -> (r: bool)
    ensures
        r == indicator_ok(t@),
{
    let tt = trim_str(t);
    str_eq(tt, "true") || str_eq(tt, "false")
}

/// The node at `k` sits in an `AllowanceCharge` that sits in a `Price`.
fn in_price_charge(doc: &Vec<XmlNode>, k: usize) -> (r: bool)
    requires
        k < doc.len(),
    ensures
        r == price_level(node_views(doc@), k as int),
{
    let ghost vs = node_views(doc@);
    match parent_of(doc, k) {
        Some(a) => {
            assert(vs[a as int] == doc@[a as int]@);
            if !str_eq(doc[a].local.as_str(), "AllowanceCharge") {
                return false;
            }
            match parent_of(doc, a) {
                Some(p) => {
                    assert(vs[p as int] == doc@[p as int]@);
                    str_eq(doc[p].local.as_str(), "Price")
                },
                None => false,
            }
        },
        None => false,
    }
}

/// R043 and R044 for every UBL `ChargeIndicator`, in document order.
fn walk_ubl_indicators(doc: &Vec<XmlNode>, report: &mut Report)
    ensures
        appended(*old(report), *final(report), ubl_indicator_hits(node_views(doc@), doc@.len() as int)),
{
    let ghost vs = node_views(doc@);
    let ghost r0 = *report;
    proof {
        lemma_appended_none(*report);
    }
    let mut k: usize = 0;
    while k < doc.len()
        invariant
            vs == node_views(doc@),
            k <= doc.len(),
            appended(r0, *report, ubl_indicator_hits(vs, k as int)),
        decreases doc.len() - k,
    {
        assert(vs[k as int] == doc@[k as int]@);
        let ghost r1 = *report;
        let ghost before = ubl_indicator_hits(vs, k as int);
        if doc[k].element && str_eq(doc[k].local.as_str(), "ChargeIndicator") {
            let t = joined_text(doc, k);
            let ghost ha: Seq<Hit> = Seq::empty();
            proof {
                lemma_appended_none(*report);
            }
            if !indicator_text_ok(t.as_str()) {
                push_hit(report, "PEPPOL-EN16931-R043", Path::group(Group::DocumentAllowance), owned("ChargeIndicator must be true or false"));
                proof {
                    lemma_appended_trans(r1, r1, *report, Seq::empty(), seq![r043_hit()]);
                    ha = seq![r043_hit()];
                    assert(Seq::<Hit>::empty() + ha =~= ha);
                }
            }
            let ghost r2 = *report;
            if in_price_charge(doc, k) && !str_eq(trim_str(t.as_str()), "false") {
                push_hit(report, "PEPPOL-EN16931-R044", Path::term(BtId(147)), owned("Price-level AllowanceCharge ChargeIndicator must be false"));
                proof {
                    lemma_appended_trans(r1, r2, *report, ha, seq![r044_hit()]);
                }
            } else {
                proof {
                    assert(ha + Seq::<Hit>::empty() =~= ha);
                }
            }
            proof {
                lemma_appended_trans(r0, r1, *report, before, ubl_indicator_hits_at(vs, k as int));
            }
        } else {
            proof {
                assert(before + Seq::<Hit>::empty() =~= before);
            }
        }
        k = k + 1;
    }
}

/// R043 for every CII `Indicator`, in document order.
fn walk_cii_indicators(doc: &Vec<XmlNode>, report: &mut Report)
    ensures
        appended(*old(report), *final(report), cii_indicator_hits(node_views(doc@), doc@.len() as int)),
{
    let ghost vs = node_views(doc@);
    let ghost r0 = *report;
    proof {
        lemma_appended_none(*report);
    }
    let mut k: usize = 0;
    while k < doc.len()
        invariant
            vs == node_views(doc@),
            k <= doc.len(),
            appended(r0, *report, cii_indicator_hits(vs, k as int)),
        decreases doc.len() - k,
    {
        assert(vs[k as int] == doc@[k as int]@);
        let ghost r1 = *report;
        let hit = doc[k].element && str_eq(doc[k].local.as_str(), "Indicator") && {
            let t = joined_text(doc, k);
            !indicator_text_ok(t.as_str())
        };
        if hit {
            push_hit(report, "PEPPOL-EN16931-R043", Path::group(Group::DocumentAllowance), owned("ChargeIndicator must be true or false"));
            proof {
                lemma_appended_trans(r0, r1, *report, cii_indicator_hits(vs, k as int), seq![r043_hit()]);
            }
        } else {
            proof {
                assert(cii_indicator_hits(vs, k as int) + Seq::<Hit>::empty() =~= cii_indicator_hits(vs, k as int));
            }
        }
        k = k + 1;
    }
}

/// How many of the nodes in `ks` have an element child with the name.
fn count_with_child(doc: &Vec<XmlNode>, ks: &Vec<usize>, name: &str) -> (r: usize)
    requires
        forall|i: int| 0 <= i < ks@.len() ==> #[trigger] ks@[i] < doc.len(),
    ensures
        r == count_having(node_views(doc@), ints(ks@), name@, ks@.len() as int),
{
    let ghost vs = node_views(doc@);
    let mut n: usize = 0;
    let mut i: usize = 0;
    while i < ks.len()
        invariant
            vs == node_views(doc@),
            forall|i: int| 0 <= i < ks@.len() ==> #[trigger] ks@[i] < doc.len(),
            i <= ks.len(),
            n <= i,
            n == count_having(vs, ints(ks@), name@, i as int),
        decreases ks.len() - i,
    {
        assert(ints(ks@)[i as int] == ks@[i as int] as int);
        if child(doc, ks[i], name).is_some() {
            n = n + 1;
        }
        i = i + 1;
    }
    n
}

/// The first element child named `child_name` of the node at `j` has,
/// trimmed, the text `code`.
fn is_typed(doc: &Vec<XmlNode>, j: usize, child_name: &str, code: &str) -> (r: bool)
    requires
        j < doc.len(),
    ensures
        r == typed(node_views(doc@), j as int, child_name@, code@),
{
    let ghost vs = node_views(doc@);
    match child(doc, j, child_name) {
        Some(c) => {
            assert(vs[c as int] == doc@[c as int]@);
            match &doc[c].text {
                Some(t) => str_eq(trim_str(t.as_str()), code),
                None => false,
            }
        },
        None => false,
    }
}

/// How many of the nodes in `ks` are typed `code`.
fn count_typed_nodes(doc: &Vec<XmlNode>, ks: &Vec<usize>, child_name: &str, code: &str) -> (r: usize)
    requires
        forall|i: int| 0 <= i < ks@.len() ==> #[trigger] ks@[i] < doc.len(),
    ensures
        r == count_typed(node_views(doc@), ints(ks@), child_name@, code@, ks@.len() as int),
{
    let ghost vs = node_views(doc@);
    let mut n: usize = 0;
    let mut i: usize = 0;
    while i < ks.len()
        invariant
            vs == node_views(doc@),
            forall|i: int| 0 <= i < ks@.len() ==> #[trigger] ks@[i] < doc.len(),
            i <= ks.len(),
            n <= i,
            n == count_typed(vs, ints(ks@), child_name@, code@, i as int),
        decreases ks.len() - i,
    {
        assert(ints(ks@)[i as int] == ks@[i as int] as int);
        if is_typed(doc, ks[i], child_name, code) {
            n = n + 1;
        }
        i = i + 1;
    }
    n
}

/// The element children of `p` with the local name, as [`kids`] lists them.
fn kids_of(doc: &Vec<XmlNode>, p: usize, name: &str) -> (r: Vec<usize>)
    requires
        p < doc.len(),
    ensures
        ints(r@) == kids(node_views(doc@), p as int, name@),
        forall|i: int| 0 <= i < r@.len() ==> #[trigger] r@[i] < doc.len(),
{
    let r = children(doc, p, name);
    assert(ints(r@) =~= kids(node_views(doc@), p as int, name@));
    r
}


/// R100 for every UBL line with more than one document reference.
fn walk_ubl_lines(doc: &Vec<XmlNode>, lines: &Vec<usize>, report: &mut Report)
    requires
        forall|i: int| 0 <= i < lines@.len() ==> #[trigger] lines@[i] < doc.len(),
    ensures
        appended(*old(report), *final(report), ubl_line_hits(node_views(doc@), ints(lines@), lines@.len() as int)),
{
    let ghost vs = node_views(doc@);
    let ghost ls = ints(lines@);
    let ghost r0 = *report;
    proof {
        lemma_appended_none(*report);
    }
    let mut i: usize = 0;
    while i < lines.len()
        invariant
            vs == node_views(doc@),
            ls == ints(lines@),
            forall|i: int| 0 <= i < lines@.len() ==> #[trigger] lines@[i] < doc.len(),
            i <= lines.len(),
            appended(r0, *report, ubl_line_hits(vs, ls, i as int)),
        decreases lines.len() - i,
    {
        assert(ls[i as int] == lines@[i as int] as int);
        let ghost r1 = *report;
        let refs = kids_of(doc, lines[i], "DocumentReference");
        if refs.len() > 1 {
            push_hit(report, "PEPPOL-EN16931-R100", Path::at_term(Group::Line, i, BtId(128)), owned("Only one invoiced object is allowed pr line"));
            proof {
                assert(r100_hit(i as int) == ("PEPPOL-EN16931-R100"@, Path { group: Group::Line, index: Some(i), term: Some(BtId(128)) }, "Only one invoiced object is allowed pr line"@));
                lemma_appended_trans(r0, r1, *report, ubl_line_hits(vs, ls, i as int), seq![r100_hit(i as int)]);
            }
        } else {
            proof {
                assert(ubl_line_hits(vs, ls, i as int) + Seq::<Hit>::empty() =~= ubl_line_hits(vs, ls, i as int));
            }
        }
        i = i + 1;
    }
}

/// The Peppol syntax rules of a UBL document with its document element at `root`.
fn walk_ubl(doc: &Vec<XmlNode>, root: usize, report: &mut Report)
    requires
        root < doc.len(),
    ensures
        appended(*old(report), *final(report), ubl_hits(node_views(doc@), root as int)),
{
    let ghost vs = node_views(doc@);
    let ghost n = doc@.len() as int;
    let ghost r0 = *report;
    walk_empty(doc, report);
    let ghost r1 = *report;
    walk_ubl_indicators(doc, report);
    proof {
        lemma_appended_trans(r0, r1, *report, r008_hits(vs, n), ubl_indicator_hits(vs, n));
    }
    let ghost h1 = r008_hits(vs, n) + ubl_indicator_hits(vs, n);
    let ghost r2 = *report;
    let totals = kids_of(doc, root, "TaxTotal");
    let with_sub = count_with_child(doc, &totals, "TaxSubtotal");
    let ghost h2: Seq<Hit> = Seq::empty();
    if with_sub != 1 {
        push_hit(report, "PEPPOL-EN16931-R053", Path::group(Group::TaxBreakdown), owned("Only one tax total with tax subtotals MUST be provided"));
        proof {
            h2 = seq![r053_hit()];
        }
    } else {
        proof {
            lemma_appended_none(*report);
        }
    }
    proof {
        lemma_appended_trans(r0, r2, *report, h1, h2);
    }
    let ghost r3 = *report;
    let ghost h3: Seq<Hit> = Seq::empty();
    assert(vs[root as int] == doc@[root as int]@);
    if str_eq(doc[root].local.as_str(), "CreditNote") {
        let refs = kids_of(doc, root, "AdditionalDocumentReference");
        let n50 = count_typed_nodes(doc, &refs, "DocumentTypeCode", "50");
        if n50 > 1 {
            push_hit(report, "PEPPOL-EN16931-R080", Path::term(BtId(11)), owned("At most one project reference is allowed"));
            proof {
                h3 = seq![r080_hit()];
            }
        } else {
            proof {
                lemma_appended_none(*report);
            }
        }
    } else {
        proof {
            lemma_appended_none(*report);
        }
    }
    proof {
        lemma_appended_trans(r0, r3, *report, h1 + h2, h3);
    }
    let ghost r4 = *report;
    let mut lines = kids_of(doc, root, "InvoiceLine");
    let mut more = kids_of(doc, root, "CreditNoteLine");
    let ghost a = lines@;
    let ghost b = more@;
    lines.append(&mut more);
    proof {
        assert(lines@ == a + b);
        assert(ints(lines@) =~= ubl_lines(vs, root as int)) by {
            assert(ints(a) == kids(vs, root as int, "InvoiceLine"@));
            assert(ints(b) == kids(vs, root as int, "CreditNoteLine"@));
            assert forall|i: int| 0 <= i < lines@.len() implies ints(lines@)[i] == ubl_lines(vs, root as int)[i] by {
                if i < a.len() {
                    assert(ints(a)[i] == a[i] as int);
                } else {
                    assert(ints(b)[i - a.len()] == b[i - a.len()] as int);
                }
            }
        }
        assert forall|i: int| 0 <= i < lines@.len() implies #[trigger] lines@[i] < doc.len() by {
            if i < a.len() {
                assert(lines@[i] == a[i]);
            } else {
                assert(lines@[i] == b[i - a.len()]);
            }
        }
    }
    walk_ubl_lines(doc, &lines, report);
    proof {
        lemma_appended_trans(r0, r4, *report, h1 + h2 + h3, ubl_line_hits(vs, ints(lines@), lines@.len() as int));
    }
}


/// How many of the nodes in `ks` carry `currencyID` equal, trimmed, to `cur`.
fn count_currency(doc: &Vec<XmlNode>, ks: &Vec<usize>, cur: &str) -> (r: usize)
    requires
        forall|i: int| 0 <= i < ks@.len() ==> #[trigger] ks@[i] < doc.len(),
    ensures
        r == count_in_currency(node_views(doc@), ints(ks@), cur@, ks@.len() as int),
{
    let ghost vs = node_views(doc@);
    let mut n: usize = 0;
    let mut i: usize = 0;
    while i < ks.len()
        invariant
            vs == node_views(doc@),
            forall|i: int| 0 <= i < ks@.len() ==> #[trigger] ks@[i] < doc.len(),
            i <= ks.len(),
            n <= i,
            n == count_in_currency(vs, ints(ks@), cur@, i as int),
        decreases ks.len() - i,
    {
        assert(ints(ks@)[i as int] == ks@[i as int] as int);
        assert(vs[ks@[i as int] as int] == doc@[ks@[i as int] as int]@);
        let k = ks[i];
        let got = attribute(doc, k, "currencyID");
        let ghost a = match attribute_spec(vs[k as int], "currencyID"@) {
            Some(v) => v,
            None => Seq::<char>::empty(),
        };
        let same = match got {
            Some(v) => str_eq(trim_str(v.as_str()), cur),
            None => {
                proof {
                    reveal_strlit("");
                    assert(""@ =~= Seq::<char>::empty());
                }
                str_eq(trim_str(""), cur)
            },
        };
        assert(same == (trim(a) == cur@));
        if same {
            n = n + 1;
        }
        i = i + 1;
    }
    n
}

/// The first element of the document with the local name.
fn first_element_named(doc: &Vec<XmlNode>, name: &str) -> (r: Option<usize>)
    ensures
        first_named(node_views(doc@), name@) == match r {
            Some(j) => Some(j as int),
            None => None::<int>,
        },
        r matches Some(j) ==> j < doc.len(),
{
    let all = elements_named(doc, name);
    if all.len() > 0 {
        Some(all[0])
    } else {
        None
    }
}

/// The trimmed text of the invoice currency under the settlement at `st`.
fn invoice_currency_under(doc: &Vec<XmlNode>, st: usize) -> (r: &str)
    requires
        st < doc.len(),
    ensures
        r@ == settlement_currency(node_views(doc@), st as int),
{
    let ghost vs = node_views(doc@);
    proof {
        reveal_strlit("");
    }
    match child(doc, st, "InvoiceCurrencyCode") {
        Some(c) => {
            assert(vs[c as int] == doc@[c as int]@);
            match &doc[c].text {
                Some(t) => trim_str(t.as_str()),
                None => trim_str(""),
            }
        },
        None => trim_str(""),
    }
}

/// R053 for CII.
fn walk_cii_tax_total(doc: &Vec<XmlNode>, report: &mut Report)
    ensures
        appended(*old(report), *final(report), cii_r053_hits(node_views(doc@))),
{
    proof {
        lemma_appended_none(*report);
    }
    if let Some(st) = first_element_named(doc, "ApplicableHeaderTradeSettlement") {
        let cur = invoice_currency_under(doc, st);
        if let Some(sum) = child(doc, st, "SpecifiedTradeSettlementHeaderMonetarySummation") {
            let ks = kids_of(doc, sum, "TaxTotalAmount");
            if count_currency(doc, &ks, cur) != 1 {
                push_hit(report, "PEPPOL-EN16931-R053", Path::group(Group::TaxBreakdown), owned("Only one tax total with tax subtotals MUST be provided"));
            }
        }
    }
}

/// R006 for CII.
fn walk_cii_agreement(doc: &Vec<XmlNode>, report: &mut Report)
    ensures
        appended(*old(report), *final(report), cii_r006_hits(node_views(doc@))),
{
    proof {
        lemma_appended_none(*report);
    }
    if let Some(ag) = first_element_named(doc, "ApplicableHeaderTradeAgreement") {
        let ks = kids_of(doc, ag, "AdditionalReferencedDocument");
        if count_typed_nodes(doc, &ks, "TypeCode", "130") > 1 {
            push_hit(report, "PEPPOL-EN16931-R006", Path::term(BtId(18)), owned("Only one invoiced object is allowed on document level"));
        }
    }
}

/// The node at `j` is the node at `a` or lies under it.
fn is_within(doc: &Vec<XmlNode>, j: usize, a: usize) -> (r: bool)
    requires
        j < doc.len(),
    ensures
        r == within(node_views(doc@), j as int, a as int, doc@.len() as nat),
{
    let ghost vs = node_views(doc@);
    let mut x: usize = j;
    let mut fuel: usize = doc.len();
    loop
        invariant
            vs == node_views(doc@),
            x < doc.len(),
            within(vs, j as int, a as int, doc@.len() as nat) == within(vs, x as int, a as int, fuel as nat),
        decreases fuel,
    {
        if x == a {
            return true;
        }
        if fuel == 0 {
            return false;
        }
        match parent_of(doc, x) {
            Some(p) => {
                x = p;
                fuel = fuel - 1;
            },
            None => {
                return false;
            },
        }
    }
}

/// How many invoiced objects lie under the line at `line`.
fn count_line_objects(doc: &Vec<XmlNode>, line: usize) -> (r: usize)
    ensures
        r == line_objects(node_views(doc@), line as int, doc@.len() as int),
{
    let ghost vs = node_views(doc@);
    let mut n: usize = 0;
    let mut j: usize = 0;
    while j < doc.len()
        invariant
            vs == node_views(doc@),
            j <= doc.len(),
            n <= j,
            n == line_objects(vs, line as int, j as int),
        decreases doc.len() - j,
    {
        assert(vs[j as int] == doc@[j as int]@);
        if doc[j].element && str_eq(doc[j].local.as_str(), "AdditionalReferencedDocument") && is_within(doc, j, line)
            && is_typed(doc, j, "TypeCode", "130") {
            n = n + 1;
        }
        j = j + 1;
    }
    n
}

/// R100 for every CII line with more than one invoiced object.
fn walk_cii_lines(doc: &Vec<XmlNode>, report: &mut Report)
    ensures
        appended(*old(report), *final(report), {
            let lines = named_elements(node_views(doc@), "IncludedSupplyChainTradeLineItem"@, doc@.len() as int);
            cii_line_hits(node_views(doc@), lines, lines.len() as int)
        }),
{
    let ghost vs = node_views(doc@);
    let lines = elements_named(doc, "IncludedSupplyChainTradeLineItem");
    let ghost ls = named_elements(vs, "IncludedSupplyChainTradeLineItem"@, doc@.len() as int);
    let ghost r0 = *report;
    proof {
        lemma_appended_none(*report);
    }
    let mut i: usize = 0;
    while i < lines.len()
        invariant
            vs == node_views(doc@),
            lines@.len() == ls.len(),
            forall|i: int| 0 <= i < lines@.len() ==> lines@[i] as int == #[trigger] ls[i],
            i <= lines.len(),
            appended(r0, *report, cii_line_hits(vs, ls, i as int)),
        decreases lines.len() - i,
    {
        assert(lines@[i as int] as int == ls[i as int]);
        let ghost r1 = *report;
        if count_line_objects(doc, lines[i]) > 1 {
            push_hit(report, "PEPPOL-EN16931-R100", Path::at_term(Group::Line, i, BtId(128)), owned("Only one invoiced object is allowed pr line"));
            proof {
                assert(r100_hit(i as int) == ("PEPPOL-EN16931-R100"@, Path { group: Group::Line, index: Some(i), term: Some(BtId(128)) }, "Only one invoiced object is allowed pr line"@));
                lemma_appended_trans(r0, r1, *report, cii_line_hits(vs, ls, i as int), seq![r100_hit(i as int)]);
            }
        } else {
            proof {
                assert(cii_line_hits(vs, ls, i as int) + Seq::<Hit>::empty() =~= cii_line_hits(vs, ls, i as int));
            }
        }
        i = i + 1;
    }
}

/// The Peppol syntax rules of a CII document.
fn walk_cii(doc: &Vec<XmlNode>, report: &mut Report)
    ensures
        appended(*old(report), *final(report), cii_hits(node_views(doc@))),
{
    let ghost vs = node_views(doc@);
    let ghost n = doc@.len() as int;
    let ghost r0 = *report;
    walk_cii_indicators(doc, report);
    let ghost r1 = *report;
    walk_cii_tax_total(doc, report);
    proof {
        lemma_appended_trans(r0, r1, *report, cii_indicator_hits(vs, n), cii_r053_hits(vs));
    }
    let ghost r2 = *report;
    walk_cii_agreement(doc, report);
    proof {
        lemma_appended_trans(r0, r2, *report, cii_indicator_hits(vs, n) + cii_r053_hits(vs), cii_r006_hits(vs));
    }
    let ghost r3 = *report;
    walk_cii_lines(doc, report);
    proof {
        let lines = named_elements(vs, "IncludedSupplyChainTradeLineItem"@, n);
        lemma_appended_trans(r0, r3, *report, cii_indicator_hits(vs, n) + cii_r053_hits(vs) + cii_r006_hits(vs), cii_line_hits(vs, lines, lines.len() as int));
    }
}

/// The Peppol syntax rules of a parsed document, chosen by its document element.
pub fn peppol_findings(doc: &Vec<XmlNode>, report: &mut Report)
    ensures
        appended(*old(report), *final(report), peppol_hits(node_views(doc@))),
{
    let ghost vs = node_views(doc@);
    match root_element(doc) {
        Some(root) => {
            assert(vs[root as int] == doc@[root as int]@);
            let name = doc[root].local.as_str();
            if str_eq(name, "Invoice") || str_eq(name, "CreditNote") {
                walk_ubl(doc, root, report);
            } else if str_eq(name, "CrossIndustryInvoice") {
                walk_cii(doc, report);
            } else {
                proof {
                    lemma_appended_none(*report);
                }
            }
        },
        None => {
            proof {
                lemma_appended_none(*report);
            }
        },
    }
}

/// Peppol BIS 3 syntax rules, for a Peppol BIS 3 invoice only: R008 for
/// every empty element, R043/R044 for indicator values, R053 unless exactly
/// one tax total carries subtotals, and R080/R006/R100 for more than one
/// project reference or invoiced object. A document that does not parse adds
/// nothing.
pub fn apply(xml: &str, invoice: &Invoice, report: &mut Report)
    ensures
        invoice.profile != Profile::PeppolBis3 ==> *final(report) == *old(report),
        invoice.profile == Profile::PeppolBis3 ==> match parsed_nodes(xml@) {
            Some(doc) => appended(*old(report), *final(report), peppol_hits(doc)),
            None => *final(report) == *old(report),
        },
{
    if invoice.profile != Profile::PeppolBis3 {
        return;
    }
    match parse_xml(xml) {
        Ok(doc) => peppol_findings(&doc, report),
        Err(_) => {},
    }
}

} // verus!
