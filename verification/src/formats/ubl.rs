//! UBL 2.1 Invoice and CreditNote.
use vstd::prelude::*;
use crate::formats::FormatError;
use crate::formats::xml::{after_prolog, document_element_local, first_tag_local, refuse_dtd};
use crate::kind::DocumentKind;
use crate::text::{concat, contains, lower_text, owned, str_eq};
use crate::code::Code;
use crate::formats::Read;
use crate::formats::tree::{
    XmlNode, XmlNodeView, child, child_text, child_text_spec, children, named_child, named_children, node_views, opt_code, opt_text,
    parse_xml, parsed_xml, root_element, root_element_spec, text_of, node_text, opt_int,
};
use crate::formats::ubl_read::{
    payment_read, tax_rep_read, charge_indicator, child_amount, child_date, date_matches, date_read, duplicate_singletons, ident, opt_child, text_under,
    opt_child_text, read_allowance, read_delivery, read_line, read_note, read_party, read_payee,
    read_payment, read_subtotal, read_supporting, read_tax_rep, read_totals, unmapped_children, ubl_line_read, note_of,
};
use crate::formats::xml::{MAX_DEPTH, depth_at, refuse_depth};
use crate::identifier::DocumentReference;
use crate::invoice::{DocumentTotals, Invoice, Party, Period, PrecedingInvoice};
use crate::profile::{Profile, ProfileLookup, lookup_spec_id};

verus! {

/// Document kind of a UBL text: refused with a DTD; otherwise the local name
/// of the document element decides.
pub fn sniff(xml: &str) -> (r: Result<DocumentKind, FormatError>)
    ensures
        contains(lower_text(xml@), "<!doctype"@) ==> r is Err,
        !contains(lower_text(xml@), "<!doctype"@) ==> match first_tag_local(after_prolog(xml@)) {
            Some(l) => if l == "Invoice"@ {
                r == Ok::<DocumentKind, FormatError>(DocumentKind::Invoice)
            } else if l == "CreditNote"@ {
                r == Ok::<DocumentKind, FormatError>(DocumentKind::CreditNote)
            } else {
                r matches Err(FormatError::Parse(m)) && m@ == "not UBL Invoice/CreditNote: "@ + l
            },
            None => r matches Err(FormatError::Parse(m)) && m@
                == "document is not well-formed UBL (no element)"@,
        },
{
    match refuse_dtd(xml) {
        Err(e) => {
            return Err(e);
        },
        Ok(()) => {},
    }
    match document_element_local(xml) {
        None => Err(FormatError::Parse(crate::text::owned("document is not well-formed UBL (no element)"))),
        Some(name) => {
            if str_eq(name, "Invoice") {
                Ok(DocumentKind::Invoice)
            } else if str_eq(name, "CreditNote") {
                Ok(DocumentKind::CreditNote)
            } else {
                Err(FormatError::Parse(concat("not UBL Invoice/CreditNote: ", name)))
            }
        },
    }
}


/// Profile selected by a specification identifier: unknown ids and other
/// processes stay unknown rather than falling back to EN 16931.
pub open spec fn profile_of_id(id: Option<Seq<char>>) -> Profile {
    match id {
        Some(t) => match lookup_spec_id(t) {
            ProfileLookup::Profile(p) => p,
            _ => Profile::Unknown,
        },
        None => Profile::Unknown,
    }
}

/// Text, or empty when absent.
pub open spec fn or_empty(t: Option<Seq<char>>) -> Seq<char> {
    match t {
        Some(s) => s,
        None => Seq::empty(),
    }
}

fn profile_for(id: &Option<String>) -> (r: Profile)
    ensures
        r == profile_of_id(match id {
            Some(s) => Some(s@),
            None => None,
        }),
{
    match id {
        Some(s) => match Profile::for_specification_id(s.as_str()) {
            ProfileLookup::Profile(p) => p,
            _ => Profile::Unknown,
        },
        None => Profile::Unknown,
    }
}

fn copy_opt(s: &Option<String>) -> (r: Option<String>)
    ensures
        s is None <==> r is None,
        s matches Some(x) ==> (r matches Some(y) && y@ == x@),
{
    match s {
        Some(x) => Some(owned(x.as_str())),
        None => None,
    }
}

fn reference_at(doc: &Vec<XmlNode>, root: usize, name: &str) -> (r: Option<DocumentReference>)
    requires
        root < doc.len(),
{
    match opt_child_text(doc, child(doc, root, name), "ID") {
        Some(s) => Some(DocumentReference(s)),
        None => None,
    }
}

fn names(list: &[&'static str]) -> (r: Vec<&'static str>)
    ensures
        r@ == list@,
{
    let mut v: Vec<&'static str> = Vec::new();
    let mut i: usize = 0;
    while i < list.len()
        invariant
            i <= list.len(),
            v@ == list@.take(i as int),
        decreases list.len() - i,
    {
        v.push(list[i]);
        assert(list@.take(i + 1) =~= list@.take(i as int).push(list@[i as int]));
        i = i + 1;
    }
    assert(list@.take(list@.len() as int) =~= list@);
    v
}

/// Children of the document element this reader maps.
pub fn mapped_invoice_children() -> Vec<&'static str> {
    names(&["CustomizationID", "ProfileID", "ID", "IssueDate", "DueDate", "TaxPointDate",
        "InvoiceTypeCode", "CreditNoteTypeCode", "Note", "DocumentCurrencyCode", "TaxCurrencyCode",
        "AccountingCost", "BuyerReference", "InvoicePeriod", "OrderReference", "BillingReference",
        "DespatchDocumentReference", "ReceiptDocumentReference", "OriginatorDocumentReference",
        "ContractDocumentReference", "AdditionalDocumentReference", "ProjectReference",
        "AccountingSupplierParty", "AccountingCustomerParty", "PayeeParty",
        "TaxRepresentativeParty", "Delivery", "PaymentMeans", "PaymentTerms", "AllowanceCharge",
        "TaxTotal", "LegalMonetaryTotal", "InvoiceLine", "CreditNoteLine"])
}

/// Children of a line this reader maps.
pub fn mapped_line_children() -> Vec<&'static str> {
    names(&["ID", "Note", "InvoicedQuantity", "CreditedQuantity", "LineExtensionAmount",
        "AccountingCost", "InvoicePeriod", "OrderLineReference", "DocumentReference",
        "AllowanceCharge", "TaxTotal", "Item", "Price"])
}

/// Children of an item this reader maps.
pub fn mapped_item_children() -> Vec<&'static str> {
    names(&["Description", "Name", "BuyersItemIdentification", "SellersItemIdentification",
        "StandardItemIdentification", "OriginCountry", "CommodityClassification",
        "ClassifiedTaxCategory", "AdditionalItemProperty"])
}

/// Children of a party this reader maps.
pub fn mapped_party_children() -> Vec<&'static str> {
    names(&["EndpointID", "PartyIdentification", "PartyName", "PostalAddress", "PartyTaxScheme",
        "PartyLegalEntity", "Contact"])
}

/// Children of an address this reader maps.
pub fn mapped_address_children() -> Vec<&'static str> {
    names(&["StreetName", "AdditionalStreetName", "CityName", "PostalZone", "CountrySubentity",
        "Country"])
}

/// Children of the document element that may occur once only.
pub fn singleton_invoice_children() -> Vec<&'static str> {
    names(&["CustomizationID", "ProfileID", "ID", "IssueDate", "DueDate", "InvoiceTypeCode",
        "CreditNoteTypeCode", "DocumentCurrencyCode", "TaxCurrencyCode", "AccountingCost",
        "BuyerReference", "InvoicePeriod", "OrderReference", "LegalMonetaryTotal", "PayeeParty",
        "TaxRepresentativeParty", "Delivery", "PaymentMeans", "PaymentTerms"])
}

/// A party read from the `Party` under a document element's child: as that
/// node reads, or empty where it is missing.
pub open spec fn ubl_party_at(vs: Seq<XmlNodeView>, root: int, name: Seq<char>, p: Party) -> bool {
    match crate::formats::ubl_read::under(vs, named_child(vs, root, name), "Party"@) {
        Some(n) => crate::formats::ubl_read::ubl_party_read(vs, n, p),
        None => crate::formats::cii::empty_party(p),
    }
}

fn read_party_at(doc: &Vec<XmlNode>, root: usize, name: &str, profile: Profile) -> (r: Party)
    requires
        root < doc.len(),
    ensures
        ubl_party_at(node_views(doc@), root as int, name@, r),
{
    let c = child(doc, root, name);
    let pn = opt_child(doc, c, "Party");
    assert(opt_int(pn) == crate::formats::ubl_read::under(node_views(doc@), opt_int(c), "Party"@));
    match pn {
        Some(p) => read_party(doc, p, profile),
        None => crate::formats::cii::no_party(),
    }
}

/// Number, currency, profile and specification id of an invoice as the
/// document element's children give them.
#[verifier::opaque]
pub open spec fn header_matches(vs: Seq<XmlNodeView>, root: int, inv: Invoice) -> bool {
    &&& inv.number@ == or_empty(child_text_spec(vs, root, "ID"@))
    &&& inv.currency@ == or_empty(child_text_spec(vs, root, "DocumentCurrencyCode"@))
    &&& inv.profile == profile_of_id(child_text_spec(vs, root, "CustomizationID"@))
    &&& match child_text_spec(vs, root, "CustomizationID"@) {
        Some(t) => inv.specification_id matches Some(s) && s@ == t,
        None => inv.specification_id is None,
    }
}

/// The kind follows the document element's local name.
pub open spec fn kind_matches(vs: Seq<XmlNodeView>, root: int, inv: Invoice) -> bool {
    (vs[root].local == "Invoice"@ && inv.kind == DocumentKind::Invoice) || (vs[root].local
        == "CreditNote"@ && inv.kind == DocumentKind::CreditNote)
}

/// Kind, number, currency, profile and specification id agree.
pub open spec fn same_header(a: Invoice, b: Invoice) -> bool {
    a.kind == b.kind && a.number == b.number && a.currency == b.currency && a.profile == b.profile
        && a.specification_id == b.specification_id
}

/// The notes that `Note` nodes read as: for each with text, the subject
/// code and body that text gives.
pub open spec fn ubl_notes_read(vs: Seq<XmlNodeView>, ks: Seq<int>) -> Seq<(Option<Seq<char>>, Seq<char>)>
    decreases ks.len(),
{
    if ks.len() == 0 {
        Seq::empty()
    } else {
        let rest = ubl_notes_read(vs, ks.drop_last());
        match node_text(vs[ks.last()]) {
            Some(t) => rest.push(note_of(t)),
            None => rest,
        }
    }
}

/// A note is what its text gives: the subject code where there is one, and
/// the body.
pub open spec fn note_matches(n: crate::invoice::InvoiceNote, v: (Option<Seq<char>>, Seq<char>)) -> bool {
    opt_code(n.subject) == v.0 && n.text@ == v.1
}

/// Type code, issue date and lines agree.
pub open spec fn keeps_body(a: Invoice, b: Invoice) -> bool {
    a.type_code == b.type_code && a.issue_date == b.issue_date && a.lines@ == b.lines@ && a.seller == b.seller
        && a.buyer == b.buyer
}

/// What the header says survives changes that keep the header.
pub proof fn lemma_header_kept(vs: Seq<XmlNodeView>, root: int, a: Invoice, b: Invoice)
    requires
        same_header(a, b),
        header_matches(vs, root, b),
        kind_matches(vs, root, b),
    ensures
        header_matches(vs, root, a),
        kind_matches(vs, root, a),
{
    reveal(header_matches);
}

fn read_header_core(doc: &Vec<XmlNode>, root: usize, credit_note: bool) -> (r: Invoice)
    requires
        root < doc.len(),
    ensures
        credit_note ==> r.kind == DocumentKind::CreditNote,
        !credit_note ==> r.kind == DocumentKind::Invoice,
        header_matches(node_views(doc@), root as int, r),
        r.lines@.len() == 0,
        r.notes@.len() == 0,
        ubl_party_at(node_views(doc@), root as int, "AccountingSupplierParty"@, r.seller),
        ubl_party_at(node_views(doc@), root as int, "AccountingCustomerParty"@, r.buyer),
{
    let customization = child_text(doc, root, "CustomizationID");
    let profile = profile_for(&customization);
    let number = match child_text(doc, root, "ID") {
        Some(s) => s,
        None => String::new(),
    };
    let currency = match child_text(doc, root, "DocumentCurrencyCode") {
        Some(s) => s,
        None => String::new(),
    };
    let seller = read_party_at(doc, root, "AccountingSupplierParty", profile);
    let buyer = read_party_at(doc, root, "AccountingCustomerParty", profile);
    let mut invoice = Invoice::blank(profile, number.as_str(), currency.as_str(), seller, buyer);
    invoice.kind = if credit_note { DocumentKind::CreditNote } else { DocumentKind::Invoice };
    invoice.specification_id = customization;
    proof {
        reveal(header_matches);
    }
    invoice
}

#[verifier::rlimit(60)]
fn read_header_rest(doc: &Vec<XmlNode>, root: usize, credit_note: bool, invoice: &mut Invoice, malformed: &mut Vec<String>)
    requires
        root < doc.len(),
    ensures
        same_header(*final(invoice), *old(invoice)),
        final(invoice).lines@ == old(invoice).lines@,
        final(invoice).notes@ == old(invoice).notes@,
        final(invoice).seller == old(invoice).seller && final(invoice).buyer == old(invoice).buyer,
        ({
            let vs = node_views(doc@);
            let r = root as int;
            &&& opt_text(final(invoice).business_process) == child_text_spec(vs, r, "ProfileID"@)
            &&& date_matches(final(invoice).issue_date, date_read(vs, r, "IssueDate"@))
            &&& opt_code(final(invoice).type_code) == child_text_spec(
                vs,
                r,
                if credit_note { "CreditNoteTypeCode"@ } else { "InvoiceTypeCode"@ },
            )
            &&& opt_code(final(invoice).tax_currency) == child_text_spec(vs, r, "TaxCurrencyCode"@)
            &&& date_matches(final(invoice).due_date, date_read(vs, r, "DueDate"@))
            &&& date_matches(final(invoice).tax_point_date, date_read(vs, r, "TaxPointDate"@))
            &&& opt_text(final(invoice).buyer_accounting) == child_text_spec(vs, r, "AccountingCost"@)
            &&& ref_text_of(final(invoice).buyer_reference) == child_text_spec(vs, r, "BuyerReference"@)
            &&& opt_text(final(invoice).payment_terms) == text_under(vs, named_child(vs, r, "PaymentTerms"@), "Note"@)
        }),
{
    let root_name = if credit_note { "CreditNote" } else { "Invoice" };
    invoice.business_process = child_text(doc, root, "ProfileID");
    invoice.issue_date = child_date(doc, root, "IssueDate", malformed, root_name);
    let type_tag = if credit_note { "CreditNoteTypeCode" } else { "InvoiceTypeCode" };
    invoice.type_code = match child_text(doc, root, type_tag) {
        Some(s) => Some(Code::new(s.as_str())),
        None => None,
    };
    invoice.tax_currency = match child_text(doc, root, "TaxCurrencyCode") {
        Some(s) => Some(Code::new(s.as_str())),
        None => None,
    };
    invoice.due_date = child_date(doc, root, "DueDate", malformed, root_name);
    invoice.tax_point_date = child_date(doc, root, "TaxPointDate", malformed, root_name);
    invoice.buyer_accounting = child_text(doc, root, "AccountingCost");
    invoice.buyer_reference = match child_text(doc, root, "BuyerReference") {
        Some(s) => Some(DocumentReference(s)),
        None => None,
    };
    invoice.payment_terms = opt_child_text(doc, child(doc, root, "PaymentTerms"), "Note");
}

/// The text of an optional reference.
pub open spec fn ref_text_of(r: Option<DocumentReference>) -> Option<Seq<char>> {
    match r {
        Some(x) => Some(x.0@),
        None => None,
    }
}

#[verifier::rlimit(60)]
fn read_notes_and_references(doc: &Vec<XmlNode>, root: usize, invoice: &mut Invoice, malformed: &mut Vec<String>)
    requires
        root < doc.len(),
    ensures
        same_header(*final(invoice), *old(invoice)),
        keeps_body(*final(invoice), *old(invoice)),
        ({
            let ns = ubl_notes_read(node_views(doc@), named_children(node_views(doc@), root as int, "Note"@, doc@.len() as int));
            &&& final(invoice).notes@.len() == old(invoice).notes@.len() + ns.len()
            &&& forall|k: int| #![trigger final(invoice).notes@[k]] 0 <= k < old(invoice).notes@.len() ==> final(invoice).notes@[k] == old(invoice).notes@[k]
            &&& forall|k: int| #![trigger ns[k]] 0 <= k < ns.len() ==> note_matches(final(invoice).notes@[old(invoice).notes@.len() + k], ns[k])
        }),
{
    let ghost vs = node_views(doc@);
    let ghost n0 = invoice.notes@;
    let note_nodes = children(doc, root, "Note");
    let ghost ks = named_children(vs, root as int, "Note"@, doc@.len() as int);
    let mut i: usize = 0;
    assert(ks.take(0) =~= Seq::<int>::empty());
    while i < note_nodes.len()
        invariant
            i <= note_nodes.len(),
            vs == node_views(doc@),
            note_nodes@.len() == ks.len(),
            forall|k: int| 0 <= k < note_nodes@.len() ==> note_nodes@[k] as int == ks[k],
            forall|k: int| 0 <= k < note_nodes@.len() ==> note_nodes@[k] < doc.len(),
            same_header(*invoice, *old(invoice)),
                keeps_body(*invoice, *old(invoice)),
            invoice.notes@.len() == n0.len() + ubl_notes_read(vs, ks.take(i as int)).len(),
            forall|k: int| #![trigger invoice.notes@[k]] 0 <= k < n0.len() ==> invoice.notes@[k] == n0[k],
            forall|k: int| #![trigger ubl_notes_read(vs, ks.take(i as int))[k]] 0 <= k < ubl_notes_read(vs, ks.take(i as int)).len()
                ==> note_matches(invoice.notes@[n0.len() + k], ubl_notes_read(vs, ks.take(i as int))[k]),
        decreases note_nodes.len() - i,
    {
        assert(ks.take(i + 1).drop_last() =~= ks.take(i as int));
        assert(vs[note_nodes@[i as int] as int] == doc@[note_nodes@[i as int] as int]@);
        match text_of(doc, note_nodes[i]) {
            Some(t) => {
                invoice.notes.push(read_note(t));
            },
            None => {},
        }
        i = i + 1;
    }
    assert(ks.take(i as int) =~= ks);
    let ghost n1 = invoice.notes@;
    match child(doc, root, "InvoicePeriod") {
        Some(p) => {
            invoice.period = Some(
                Period {
                    start: child_date(doc, p, "StartDate", malformed, "InvoicePeriod"),
                    end: child_date(doc, p, "EndDate", malformed, "InvoicePeriod"),
                },
            );
            invoice.tax_point_code = match child_text(doc, p, "DescriptionCode") {
                Some(s) => Some(Code::new(s.as_str())),
                None => None,
            };
        },
        None => {},
    }
    match child(doc, root, "OrderReference") {
        Some(or) => {
            invoice.purchase_order = match child_text(doc, or, "ID") {
                Some(s) => Some(DocumentReference(s)),
                None => None,
            };
            invoice.sales_order = match child_text(doc, or, "SalesOrderID") {
                Some(s) => Some(DocumentReference(s)),
                None => None,
            };
        },
        None => {},
    }
    let billing = children(doc, root, "BillingReference");
    let mut b: usize = 0;
    while b < billing.len()
        invariant
            b <= billing.len(),
            forall|k: int| 0 <= k < billing@.len() ==> billing@[k] < doc.len(),
            same_header(*invoice, *old(invoice)),
                keeps_body(*invoice, *old(invoice)),
            invoice.notes@ == n1,
        decreases billing.len() - b,
    {
        match child(doc, billing[b], "InvoiceDocumentReference") {
            Some(r) => match child_text(doc, r, "ID") {
                Some(id) => {
                    let date = child_date(doc, r, "IssueDate", malformed, "BillingReference");
                    invoice.preceding.push(PrecedingInvoice { reference: DocumentReference(id), issue_date: date });
                },
                None => {},
            },
            None => {},
        }
        b = b + 1;
    }
    invoice.despatch = reference_at(doc, root, "DespatchDocumentReference");
    invoice.receiving_advice = reference_at(doc, root, "ReceiptDocumentReference");
    invoice.tender = reference_at(doc, root, "OriginatorDocumentReference");
    invoice.contract = reference_at(doc, root, "ContractDocumentReference");
    invoice.project = reference_at(doc, root, "ProjectReference");
    let adrs = children(doc, root, "AdditionalDocumentReference");
    let mut a: usize = 0;
    while a < adrs.len()
        invariant
            a <= adrs.len(),
            forall|k: int| 0 <= k < adrs@.len() ==> adrs@[k] < doc.len(),
            same_header(*invoice, *old(invoice)),
                keeps_body(*invoice, *old(invoice)),
            invoice.notes@ == n1,
        decreases adrs.len() - a,
    {
        let adr = adrs[a];
        let is_object = match child_text(doc, adr, "DocumentTypeCode") {
            Some(t) => str_eq(t.as_str(), "130"),
            None => false,
        };
        if is_object {
            match child(doc, adr, "ID") {
                Some(id) => {
                    invoice.invoiced_object = Some(ident(doc, id));
                },
                None => {},
            }
        } else {
            invoice.supporting_documents.push(read_supporting(doc, adr));
        }
        a = a + 1;
    }
}

fn read_parties_and_payment(doc: &Vec<XmlNode>, root: usize, invoice: &mut Invoice, malformed: &mut Vec<String>)
    requires
        root < doc.len(),
    ensures
        same_header(*final(invoice), *old(invoice)),
        final(invoice).notes@ == old(invoice).notes@,
        keeps_body(*final(invoice), *old(invoice)),
        ({
            let vs = node_views(doc@);
            let r = root as int;
            &&& (final(invoice).payee is Some <==> named_child(vs, r, "PayeeParty"@) is Some)
            &&& match named_child(vs, r, "TaxRepresentativeParty"@) {
                Some(n) => final(invoice).tax_representative matches Some(t) && tax_rep_read(doc@, n, t),
                None => final(invoice).tax_representative is None,
            }
            &&& (final(invoice).delivery is Some <==> named_child(vs, r, "Delivery"@) is Some)
            &&& match named_child(vs, r, "PaymentMeans"@) {
                Some(n) => final(invoice).payment matches Some(p) && payment_read(doc@, n, p),
                None => final(invoice).payment is None,
            }
        }),
{
    invoice.payee = match child(doc, root, "PayeeParty") {
        Some(n) => Some(read_payee(doc, n)),
        None => None,
    };
    invoice.tax_representative = match child(doc, root, "TaxRepresentativeParty") {
        Some(n) => Some(read_tax_rep(doc, n)),
        None => None,
    };
    invoice.delivery = match child(doc, root, "Delivery") {
        Some(n) => Some(read_delivery(doc, n, malformed)),
        None => None,
    };
    invoice.payment = match child(doc, root, "PaymentMeans") {
        Some(n) => Some(read_payment(doc, n)),
        None => None,
    };
}

fn read_allowances_and_tax(doc: &Vec<XmlNode>, root: usize, invoice: &mut Invoice, malformed: &mut Vec<String>)
    requires
        root < doc.len(),
    ensures
        same_header(*final(invoice), *old(invoice)),
        final(invoice).notes@ == old(invoice).notes@,
        keeps_body(*final(invoice), *old(invoice)),
{
    let profile = invoice.profile;
    let acs = children(doc, root, "AllowanceCharge");
    let mut c: usize = 0;
    while c < acs.len()
        invariant
            c <= acs.len(),
            forall|k: int| 0 <= k < acs@.len() ==> acs@[k] < doc.len(),
            same_header(*invoice, *old(invoice)),
            invoice.notes@ == old(invoice).notes@,
                keeps_body(*invoice, *old(invoice)),
        decreases acs.len() - c,
    {
        if charge_indicator(doc, acs[c]) == Some(false) {
            invoice.document_allowances.push(read_allowance(doc, acs[c], profile, malformed));
        }
        c = c + 1;
    }
    let mut c2: usize = 0;
    while c2 < acs.len()
        invariant
            c2 <= acs.len(),
            forall|k: int| 0 <= k < acs@.len() ==> acs@[k] < doc.len(),
            same_header(*invoice, *old(invoice)),
            invoice.notes@ == old(invoice).notes@,
                keeps_body(*invoice, *old(invoice)),
        decreases acs.len() - c2,
    {
        if charge_indicator(doc, acs[c2]) == Some(true) {
            invoice.document_charges.push(read_allowance(doc, acs[c2], profile, malformed));
        }
        c2 = c2 + 1;
    }
    let mut doc_tax: Option<crate::amount::InvoiceAmount> = None;
    let mut acct_tax: Option<crate::amount::InvoiceAmount> = None;
    let tts = children(doc, root, "TaxTotal");
    let mut t: usize = 0;
    while t < tts.len()
        invariant
            t <= tts.len(),
            forall|k: int| 0 <= k < tts@.len() ==> tts@[k] < doc.len(),
            same_header(*invoice, *old(invoice)),
            invoice.notes@ == old(invoice).notes@,
                keeps_body(*invoice, *old(invoice)),
            profile == invoice.profile,
        decreases tts.len() - t,
    {
        let tt = tts[t];
        let cid = match child(doc, tt, "TaxAmount") {
            Some(n) => match crate::formats::tree::attribute(doc, n, "currencyID") {
                Some(s) => s,
                None => String::new(),
            },
            None => String::new(),
        };
        let amt = child_amount(doc, tt, "TaxAmount", malformed, "TaxTotal");
        let subs = children(doc, tt, "TaxSubtotal");
        let has_sub = subs.len() > 0;
        if has_sub || cid.as_str().unicode_len() == 0 || str_eq(cid.as_str(), invoice.currency.as_str()) {
            let mut u: usize = 0;
            while u < subs.len()
                invariant
                    u <= subs.len(),
                    forall|k: int| 0 <= k < subs@.len() ==> subs@[k] < doc.len(),
                    same_header(*invoice, *old(invoice)),
            invoice.notes@ == old(invoice).notes@,
                keeps_body(*invoice, *old(invoice)),
                decreases subs.len() - u,
            {
                invoice.tax_breakdown.push(read_subtotal(doc, subs[u], profile, malformed));
                u = u + 1;
            }
            if amt.is_some() {
                doc_tax = amt;
            }
        } else {
            let matches_accounting = match &invoice.tax_currency {
                Some(code) => str_eq(code.as_str(), cid.as_str()),
                None => false,
            };
            if matches_accounting {
                acct_tax = amt;
            }
        }
        t = t + 1;
    }
    match child(doc, root, "LegalMonetaryTotal") {
        Some(lmt) => {
            let mut totals = read_totals(doc, lmt, malformed);
            totals.tax_total = doc_tax;
            if acct_tax.is_some() {
                totals.tax_total_accounting = acct_tax;
            }
            invoice.totals = Some(totals);
        },
        None => {
            if tts.len() > 0 {
                let mut totals = DocumentTotals::default();
                totals.tax_total = doc_tax;
                totals.tax_total_accounting = acct_tax;
                invoice.totals = Some(totals);
            }
        },
    }
}

/// The line nodes of a UBL document: its `InvoiceLine` children, then its
/// `CreditNoteLine` children.
pub open spec fn ubl_line_nodes(vs: Seq<XmlNodeView>, root: int) -> Seq<int> {
    named_children(vs, root, "InvoiceLine"@, vs.len() as int) + named_children(vs, root, "CreditNoteLine"@, vs.len() as int)
}

fn read_all_lines(doc: &Vec<XmlNode>, root: usize, invoice: &mut Invoice, credit_note: bool, malformed: &mut Vec<String>)
    requires
        root < doc.len(),
    ensures
        same_header(*final(invoice), *old(invoice)),
        final(invoice).notes@ == old(invoice).notes@,
        final(invoice).type_code == old(invoice).type_code && final(invoice).issue_date == old(invoice).issue_date,
        final(invoice).seller == old(invoice).seller && final(invoice).buyer == old(invoice).buyer,
        final(invoice).lines@.len() == old(invoice).lines@.len() + ubl_line_nodes(node_views(doc@), root as int).len(),
        forall|k: int| #![trigger final(invoice).lines@[k]] 0 <= k < old(invoice).lines@.len() ==> final(invoice).lines@[k] == old(invoice).lines@[k],
        forall|k: int| #![trigger ubl_line_nodes(node_views(doc@), root as int)[k]] 0 <= k < ubl_line_nodes(node_views(doc@), root as int).len()
            ==> ubl_line_read(node_views(doc@), ubl_line_nodes(node_views(doc@), root as int)[k], old(invoice).profile, credit_note, final(invoice).lines@[old(invoice).lines@.len() + k]),
{
    let ghost vs = node_views(doc@);
    assert(vs.len() == doc@.len());
    let profile = invoice.profile;
    let ghost l0 = invoice.lines@;
    let inv_lines = children(doc, root, "InvoiceLine");
    let cn_lines = children(doc, root, "CreditNoteLine");
    let ghost il = named_children(vs, root as int, "InvoiceLine"@, vs.len() as int);
    let ghost cl = named_children(vs, root as int, "CreditNoteLine"@, vs.len() as int);
    let mut l: usize = 0;
    while l < inv_lines.len()
        invariant
            l <= inv_lines.len(),
            vs == node_views(doc@),
            inv_lines@.len() == il.len(),
            forall|k: int| 0 <= k < inv_lines@.len() ==> inv_lines@[k] as int == il[k],
            forall|k: int| 0 <= k < inv_lines@.len() ==> inv_lines@[k] < doc.len(),
            same_header(*invoice, *old(invoice)),
            invoice.notes@ == old(invoice).notes@,
            profile == old(invoice).profile,
            invoice.type_code == old(invoice).type_code && invoice.issue_date == old(invoice).issue_date,
            invoice.seller == old(invoice).seller && invoice.buyer == old(invoice).buyer,
            invoice.lines@.len() == l0.len() + l,
            forall|k: int| #![trigger invoice.lines@[k]] 0 <= k < l0.len() ==> invoice.lines@[k] == l0[k],
            forall|k: int| #![trigger il[k]] 0 <= k < l ==> ubl_line_read(vs, il[k], profile, credit_note, invoice.lines@[l0.len() + k]),
        decreases inv_lines.len() - l,
    {
        invoice.lines.push(read_line(doc, inv_lines[l], profile, credit_note, malformed));
        l = l + 1;
    }
    let mut l2: usize = 0;
    while l2 < cn_lines.len()
        invariant
            l2 <= cn_lines.len(),
            vs == node_views(doc@),
            cn_lines@.len() == cl.len(),
            forall|k: int| 0 <= k < cn_lines@.len() ==> cn_lines@[k] as int == cl[k],
            forall|k: int| 0 <= k < cn_lines@.len() ==> cn_lines@[k] < doc.len(),
            same_header(*invoice, *old(invoice)),
            invoice.notes@ == old(invoice).notes@,
            profile == old(invoice).profile,
            invoice.type_code == old(invoice).type_code && invoice.issue_date == old(invoice).issue_date,
            invoice.seller == old(invoice).seller && invoice.buyer == old(invoice).buyer,
            invoice.lines@.len() == l0.len() + il.len() + l2,
            forall|k: int| #![trigger invoice.lines@[k]] 0 <= k < l0.len() ==> invoice.lines@[k] == l0[k],
            forall|k: int| #![trigger il[k]] 0 <= k < il.len() ==> ubl_line_read(vs, il[k], profile, credit_note, invoice.lines@[l0.len() + k]),
            forall|k: int| #![trigger cl[k]] 0 <= k < l2 ==> ubl_line_read(vs, cl[k], profile, credit_note, invoice.lines@[l0.len() + il.len() + k]),
        decreases cn_lines.len() - l2,
    {
        invoice.lines.push(read_line(doc, cn_lines[l2], profile, credit_note, malformed));
        l2 = l2 + 1;
    }
    proof {
        let ns = ubl_line_nodes(vs, root as int);
        assert forall|k: int| #![trigger ns[k]] 0 <= k < ns.len() implies ubl_line_read(vs, ns[k], old(invoice).profile, credit_note, invoice.lines@[l0.len() + k]) by {
            if k < il.len() {
                assert(ns[k] == il[k]);
            } else {
                assert(ns[k] == cl[k - il.len()]);
            }
        }
    }
}

fn party_unmapped(doc: &Vec<XmlNode>, party: Option<usize>, unmapped: &mut Vec<String>)
    requires
        party matches Some(p) ==> p < doc.len(),
{
    match party {
        Some(p) => {
            let mut u = unmapped_children(doc, p, "Party", &mapped_party_children());
            unmapped.append(&mut u);
            match child(doc, p, "PostalAddress") {
                Some(addr) => {
                    let mut w = unmapped_children(doc, addr, "PostalAddress", &mapped_address_children());
                    unmapped.append(&mut w);
                },
                None => {},
            }
        },
        None => {},
    }
}

fn lines_unmapped(doc: &Vec<XmlNode>, root: usize, tag: &str, unmapped: &mut Vec<String>)
    requires
        root < doc.len(),
{
    let lines = children(doc, root, tag);
    let line_children = mapped_line_children();
    let item_children = mapped_item_children();
    let mut m: usize = 0;
    while m < lines.len()
        invariant
            m <= lines.len(),
            forall|k: int| 0 <= k < lines@.len() ==> lines@[k] < doc.len(),
        decreases lines.len() - m,
    {
        let mut u = unmapped_children(doc, lines[m], tag, &line_children);
        unmapped.append(&mut u);
        match child(doc, lines[m], "Item") {
            Some(item) => {
                let mut w = unmapped_children(doc, item, "Item", &item_children);
                unmapped.append(&mut w);
            },
            None => {},
        }
        m = m + 1;
    }
}

fn collect_unmapped(doc: &Vec<XmlNode>, root: usize, root_name: &str) -> (r: Vec<String>)
    requires
        root < doc.len(),
{
    let mut unmapped = unmapped_children(doc, root, root_name, &mapped_invoice_children());
    lines_unmapped(doc, root, "InvoiceLine", &mut unmapped);
    lines_unmapped(doc, root, "CreditNoteLine", &mut unmapped);
    party_unmapped(doc, opt_child(doc, child(doc, root, "AccountingSupplierParty"), "Party"), &mut unmapped);
    party_unmapped(doc, opt_child(doc, child(doc, root, "AccountingCustomerParty"), "Party"), &mut unmapped);
    duplicate_singletons(doc, root, root_name, &singleton_invoice_children(), &mut unmapped);
    unmapped
}

/// The type code, issue date, lines and notes of an invoice read from a UBL
/// document: the type code under `InvoiceTypeCode` (`CreditNoteTypeCode` in
/// a credit note), each line read from its line node and each note from its
/// `Note` node, in order.
pub open spec fn ubl_body_read(vs: Seq<XmlNodeView>, root: int, inv: Invoice) -> bool {
    let credit = vs[root].local == "CreditNote"@;
    let ns = ubl_line_nodes(vs, root);
    let notes = ubl_notes_read(vs, named_children(vs, root, "Note"@, vs.len() as int));
    &&& opt_code(inv.type_code) == child_text_spec(vs, root, if credit { "CreditNoteTypeCode"@ } else { "InvoiceTypeCode"@ })
    &&& date_matches(inv.issue_date, date_read(vs, root, "IssueDate"@))
    &&& inv.lines@.len() == ns.len()
    &&& forall|k: int| #![trigger ns[k]] 0 <= k < ns.len() ==> ubl_line_read(vs, ns[k], inv.profile, credit, inv.lines@[k])
    &&& inv.notes@.len() == notes.len()
    &&& forall|k: int| #![trigger notes[k]] 0 <= k < notes.len() ==> note_matches(inv.notes@[k], notes[k])
    &&& ubl_party_at(vs, root, "AccountingSupplierParty"@, inv.seller)
    &&& ubl_party_at(vs, root, "AccountingCustomerParty"@, inv.buyer)
}

/// What reading a UBL document gives: success exactly when the text has
/// no DTD, is nested within the cap, parses, and has an `Invoice` or
/// `CreditNote` document element; then the kind follows that element, and
/// the header, type code, issue date, lines, notes, seller and buyer follow
/// its children.
pub open spec fn ubl_read_result(xml: &str, r: Result<Read, FormatError>) -> bool {
    &&& r is Ok <==> {
        &&& !contains(lower_text(xml@), "<!doctype"@)
        &&& depth_at(xml@, MAX_DEPTH as nat, xml@.len() as int) is Some
        &&& parsed_xml(xml@) is Ok
        &&& root_element_spec(parsed_xml(xml@)->Ok_0) matches Some(root)
        &&& (parsed_xml(xml@)->Ok_0[root].local == "Invoice"@ || parsed_xml(xml@)->Ok_0[root].local == "CreditNote"@)
    }
    &&& r matches Ok(rd) ==> kind_matches(parsed_xml(xml@)->Ok_0, root_element_spec(parsed_xml(xml@)->Ok_0)->0, rd.invoice)
        && header_matches(parsed_xml(xml@)->Ok_0, root_element_spec(parsed_xml(xml@)->Ok_0)->0, rd.invoice)
        && ubl_body_read(parsed_xml(xml@)->Ok_0, root_element_spec(parsed_xml(xml@)->Ok_0)->0, rd.invoice)
}

/// Read a UBL Invoice or CreditNote. A DTD, nesting over the cap, text that
/// does not parse, and a document element other than `Invoice` or
/// `CreditNote` are refused. Children that are not mapped and malformed
/// values are listed beside the invoice.
#[verifier::rlimit(60)]
pub fn read(xml: &str) -> (r: Result<Read, FormatError>)
    ensures
        ubl_read_result(xml, r),
        contains(lower_text(xml@), "<!doctype"@) ==> r is Err,
{
    match refuse_dtd(xml) {
        Err(e) => {
            return Err(e);
        },
        Ok(()) => {},
    }
    match refuse_depth(xml) {
        Err(e) => {
            return Err(e);
        },
        Ok(()) => {},
    }
    let doc = match parse_xml(xml) {
        Ok(d) => d,
        Err(e) => {
            return Err(FormatError::Parse(concat("not well-formed: ", e.as_str())));
        },
    };
    let root = match root_element(&doc) {
        Some(r) => r,
        None => {
            return Err(FormatError::Parse(owned("document is not well-formed (no element)")));
        },
    };
    let local = doc[root].local.as_str();
    assert(node_views(doc@)[root as int].local == local@);
    let credit_note = if str_eq(local, "Invoice") {
        false
    } else if str_eq(local, "CreditNote") {
        true
    } else {
        return Err(FormatError::Parse(concat("document element must be Invoice or CreditNote, not ", local)));
    };
    let root_name = if credit_note { "CreditNote" } else { "Invoice" };
    let ghost vs = node_views(doc@);
    assert(parsed_xml(xml@)->Ok_0 == vs);
    assert(root_element_spec(vs) == Some(root as int));
    let mut malformed: Vec<String> = Vec::new();
    let mut invoice = read_header_core(&doc, root, credit_note);
    assert(kind_matches(vs, root as int, invoice));
    let ghost first = invoice;
    read_header_rest(&doc, root, credit_note, &mut invoice, &mut malformed);
    let ghost after_header = invoice;
    read_notes_and_references(&doc, root, &mut invoice, &mut malformed);
    let ghost after_notes = invoice;
    read_parties_and_payment(&doc, root, &mut invoice, &mut malformed);
    read_allowances_and_tax(&doc, root, &mut invoice, &mut malformed);
    let ghost before_lines = invoice;
    read_all_lines(&doc, root, &mut invoice, credit_note, &mut malformed);
    proof {
        lemma_header_kept(vs, root as int, invoice, first);
        assert(keeps_body(before_lines, after_header));
        assert(before_lines.lines@.len() == 0);
        assert(after_header.notes@.len() == 0);
        assert(invoice.notes@ == after_notes.notes@);
        assert(vs.len() == doc@.len());
        reveal_strlit("Invoice");
        reveal_strlit("CreditNote");
        assert(credit_note == (vs[root as int].local == "CreditNote"@));
        assert(ubl_body_read(vs, root as int, invoice));
    }
    let unmapped = collect_unmapped(&doc, root, root_name);
    Ok(Read { invoice, unmapped, malformed })
}
} // verus!
