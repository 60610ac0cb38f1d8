//! What validation reads from the document itself rather than from the
//! model: the `currencyID` attribute of every amount (BR-CL-03, and for
//! Peppol BIS 3 also CL007 and R051).
use vstd::prelude::*;
use crate::bt::{BtId, Group, Path};
use crate::codes::{currency, iso_4217_spec, listed_ic};
use crate::formats::nodes::{Hit, appended, lemma_appended_none, lemma_appended_trans, parent_index, parent_of, push_hit};
use crate::formats::tree::{XmlNode, XmlNodeView, attribute, attribute_spec, child, named_child, node_views};
use crate::report::Report;
use crate::text::{has_chars, owned, str_eq, trim, trim_str};

verus! {

/// Location of the currency findings: the invoice currency (BT-5).
pub open spec fn currency_path() -> Path {
    Path { group: Group::Document, index: None, term: Some(BtId(5)) }
}

/// `currencyID <cid> is not an ISO 4217 alpha-3 code`.
pub open spec fn not_iso_message(cid: Seq<char>) -> Seq<char> {
    "currencyID "@ + cid + " is not an ISO 4217 alpha-3 code"@
}

/// `currencyID <cid> must equal invoice currency <cur>`.
pub open spec fn other_currency_message(cid: Seq<char>, cur: Seq<char>) -> Seq<char> {
    "currencyID "@ + cid + " must equal invoice currency "@ + cur
}

/// Walking up from the element at `j` (at most `fuel` steps) to decide
/// whether CL007 covers the amount at `k`: under a CII document only the
/// tax total amount is covered, under UBL every amount.
pub open spec fn cl007_from(doc: Seq<XmlNodeView>, k: int, j: int, fuel: nat) -> bool
    decreases fuel,
{
    if doc[j].local == "CrossIndustryInvoice"@ {
        doc[k].local == "TaxTotalAmount"@
    } else if doc[j].local == "Invoice"@ || doc[j].local == "CreditNote"@ {
        true
    } else if fuel == 0 {
        true
    } else {
        match parent_index(doc, j) {
            Some(p) => if doc[p].element {
                cl007_from(doc, k, p, (fuel - 1) as nat)
            } else {
                true
            },
            None => true,
        }
    }
}

/// CL007 covers the amount at `k`.
pub open spec fn cl007_applies(doc: Seq<XmlNodeView>, k: int) -> bool {
    cl007_from(doc, k, k, doc.len() as nat)
}

/// The amount at `k` is the tax total in accounting currency (BT-111): a
/// `TaxAmount` whose parent `TaxTotal` has no `TaxSubtotal`.
pub open spec fn bt111_amount(doc: Seq<XmlNodeView>, k: int) -> bool {
    &&& doc[k].local == "TaxAmount"@
    &&& match parent_index(doc, k) {
        Some(p) => doc[p].local == "TaxTotal"@ && named_child(doc, p, "TaxSubtotal"@) is None,
        None => false,
    }
}

/// The currency findings of the node at `k`.
pub open spec fn node_currency_hits(doc: Seq<XmlNodeView>, k: int, cur: Seq<char>, peppol: bool) -> Seq<Hit> {
    if !doc[k].element {
        Seq::empty()
    } else {
        match attribute_spec(doc[k], "currencyID"@) {
            None => Seq::empty(),
            Some(raw) => {
                let cid = trim(raw);
                let not_iso = cid.len() > 0 && !listed_ic(iso_4217_spec(), cid);
                let a = if not_iso {
                    seq![("BR-CL-03"@, currency_path(), not_iso_message(cid))] + if peppol && cl007_applies(doc, k) {
                        seq![("PEPPOL-EN16931-CL007"@, currency_path(), not_iso_message(cid))]
                    } else {
                        Seq::empty()
                    }
                } else {
                    Seq::empty()
                };
                let b = if peppol && cid.len() > 0 && cid != cur && !bt111_amount(doc, k) {
                    seq![("PEPPOL-EN16931-R051"@, currency_path(), other_currency_message(cid, cur))]
                } else {
                    Seq::empty()
                };
                a + b
            },
        }
    }
}

/// The currency findings of the first `upto` nodes, in document order.
pub open spec fn currency_hits(doc: Seq<XmlNodeView>, cur: Seq<char>, peppol: bool, upto: int) -> Seq<Hit>
    decreases upto,
{
    if upto <= 0 {
        Seq::empty()
    } else {
        currency_hits(doc, cur, peppol, upto - 1) + node_currency_hits(doc, upto - 1, cur, peppol)
    }
}

/// Whether CL007 covers the amount at `k`.
fn cl007(doc: &Vec<XmlNode>, k: usize) -> (r: bool)
    requires
        k < doc.len(),
    ensures
        r == cl007_applies(node_views(doc@), k as int),
{
    let ghost vs = node_views(doc@);
    let mut j: usize = k;
    let mut fuel: usize = doc.len();
    loop
        invariant
            vs == node_views(doc@),
            k < doc.len(),
            j < doc.len(),
            cl007_applies(vs, k as int) == cl007_from(vs, k as int, j as int, fuel as nat),
        decreases fuel,
    {
        assert(vs[j as int] == doc@[j as int]@);
        assert(vs[k as int] == doc@[k as int]@);
        let name = doc[j].local.as_str();
        if str_eq(name, "CrossIndustryInvoice") {
            return str_eq(doc[k].local.as_str(), "TaxTotalAmount");
        }
        if str_eq(name, "Invoice") || str_eq(name, "CreditNote") {
            return true;
        }
        if fuel == 0 {
            return true;
        }
        match parent_of(doc, j) {
            Some(p) => {
                assert(vs[p as int] == doc@[p as int]@);
                if doc[p].element {
                    j = p;
                    fuel = fuel - 1;
                } else {
                    return true;
                }
            },
            None => {
                return true;
            },
        }
    }
}

/// Whether the amount at `k` is the tax total in accounting currency.
fn bt111(doc: &Vec<XmlNode>, k: usize) -> (r: bool)
    requires
        k < doc.len(),
    ensures
        r == bt111_amount(node_views(doc@), k as int),
{
    let ghost vs = node_views(doc@);
    assert(vs[k as int] == doc@[k as int]@);
    if !str_eq(doc[k].local.as_str(), "TaxAmount") {
        return false;
    }
    match parent_of(doc, k) {
        Some(p) => {
            assert(vs[p as int] == doc@[p as int]@);
            str_eq(doc[p].local.as_str(), "TaxTotal") && child(doc, p, "TaxSubtotal").is_none()
        },
        None => false,
    }
}

/// Check the `currencyID` of the node at `k`.
fn check_node_currency(doc: &Vec<XmlNode>, k: usize, cur: &str, peppol: bool, report: &mut Report)
    requires
        k < doc.len(),
    ensures
        appended(*old(report), *final(report), node_currency_hits(node_views(doc@), k as int, cur@, peppol)),
{
    let ghost vs = node_views(doc@);
    let ghost r0 = *report;
    assert(vs[k as int] == doc@[k as int]@);
    if !doc[k].element {
        proof {
            lemma_appended_none(*report);
        }
        return;
    }
    let raw = match attribute(doc, k, "currencyID") {
        Some(v) => v,
        None => {
            proof {
                lemma_appended_none(*report);
            }
            return;
        },
    };
    let cid = trim_str(raw.as_str());
    let not_iso = has_chars(cid) && !currency(cid);
    let ghost h_a: Seq<Hit> = Seq::empty();
    proof {
        lemma_appended_none(*report);
    }
    if not_iso {
        let mut m = owned("currencyID ");
        m.append(cid);
        m.append(" is not an ISO 4217 alpha-3 code");
        let ghost r1 = *report;
        let m2 = m.clone();
        push_hit(report, "BR-CL-03", Path::term(BtId(5)), m);
        proof {
            lemma_appended_trans(r0, r1, *report, Seq::empty(), seq![("BR-CL-03"@, currency_path(), not_iso_message(cid@))]);
            h_a = seq![("BR-CL-03"@, currency_path(), not_iso_message(cid@))];
            assert(Seq::<Hit>::empty() + h_a =~= h_a);
        }
        if peppol && cl007(doc, k) {
            let ghost r2 = *report;
            push_hit(report, "PEPPOL-EN16931-CL007", Path::term(BtId(5)), m2);
            proof {
                let h = seq![("PEPPOL-EN16931-CL007"@, currency_path(), not_iso_message(cid@))];
                lemma_appended_trans(r0, r2, *report, h_a, h);
                h_a = h_a + h;
            }
        } else {
            proof {
                assert(h_a + Seq::<Hit>::empty() =~= h_a);
            }
        }
    }
    let ghost r3 = *report;
    if peppol && has_chars(cid) && !str_eq(cid, cur) && !bt111(doc, k) {
        let mut m = owned("currencyID ");
        m.append(cid);
        m.append(" must equal invoice currency ");
        m.append(cur);
        push_hit(report, "PEPPOL-EN16931-R051", Path::term(BtId(5)), m);
        proof {
            let h = seq![("PEPPOL-EN16931-R051"@, currency_path(), other_currency_message(cid@, cur@))];
            lemma_appended_trans(r0, r3, *report, h_a, h);
        }
    } else {
        proof {
            assert(h_a + Seq::<Hit>::empty() =~= h_a);
        }
    }
}

/// Check the `currencyID` attribute of every element of the document in
/// document order: BR-CL-03 when it is not an ISO 4217 code, and for Peppol
/// BIS 3 also CL007 (where that list covers the amount) and R051 when it
/// differs from the invoice currency (the tax total in accounting currency
/// excepted).
pub fn check_wire_currencies(doc: &Vec<XmlNode>, cur: &str, peppol: bool, report: &mut Report)
    ensures
        appended(*old(report), *final(report), currency_hits(node_views(doc@), cur@, peppol, doc@.len() as int)),
{
    let ghost r0 = *report;
    proof {
        lemma_appended_none(*report);
    }
    let mut k: usize = 0;
    while k < doc.len()
        invariant
            k <= doc.len(),
            appended(r0, *report, currency_hits(node_views(doc@), cur@, peppol, k as int)),
        decreases doc.len() - k,
    {
        let ghost r1 = *report;
        check_node_currency(doc, k, cur, peppol, report);
        proof {
            lemma_appended_trans(
                r0,
                r1,
                *report,
                currency_hits(node_views(doc@), cur@, peppol, k as int),
                node_currency_hits(node_views(doc@), k as int, cur@, peppol),
            );
        }
        k = k + 1;
    }
}

} // verus!
