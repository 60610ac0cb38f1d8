//! Writing UBL 2.1 Invoice and CreditNote documents from the model.
use vstd::prelude::*;
use crate::amount::{InvoiceAmount, UnitPriceAmount};
use crate::date::{Date, date_text};
use crate::dec::{Dec, decimal_text, normal_text, zero_dec};
use crate::formats::xml_out::{amount_el, amount_text, attr_text, attr_view, close_el, close_text, grows, leaf_el, leaf_el2, leaf_text, open_el, open_text, opt_attr_text};
use crate::code::Code;
use crate::identifier::{DocumentReference, Identifier};
use crate::formats::tree::opt_text;
use crate::formats::base64::b64_from;
use crate::invoice::{party_country, 
    AllowanceCharge, Delivery, DocumentTotals, Invoice, InvoiceNote, ItemAttribute, Line, PrecedingInvoice, TaxBreakdown, LineAllowanceCharge, Party, Payee, PaymentInstructions, Price,
    SupportingDocument, TaxRepresentative,
};
use crate::kind::DocumentKind;
use crate::payment::{CreditTransfer, PaymentMeans};
use crate::profile::{Profile, profile_process_id};
use crate::tax::{TaxCategory, wire_scheme, wire_scheme_of};
use crate::text::{blank, contains, has_chars, is_blank, lemma_contains_ends, lemma_contains_piece, lemma_contains_trans, owned};

verus! {

/// UBL Invoice namespace.
pub const NS_INV: &'static str = "urn:oasis:names:specification:ubl:schema:xsd:Invoice-2";

/// UBL CreditNote namespace.
pub const NS_CN: &'static str = "urn:oasis:names:specification:ubl:schema:xsd:CreditNote-2";

/// UBL aggregate components namespace.
pub const NS_CAC: &'static str = "urn:oasis:names:specification:ubl:schema:xsd:CommonAggregateComponents-2";

/// UBL basic components namespace.
pub const NS_CBC: &'static str = "urn:oasis:names:specification:ubl:schema:xsd:CommonBasicComponents-2";

/// `<cac:tag>` at depth `n`.
#[verifier::opaque]
pub open spec fn o_text(n: nat, tag: Seq<char>) -> Seq<char> {
    open_text(n, "cac"@, tag)
}

/// `</cac:tag>` at depth `n`.
#[verifier::opaque]
pub open spec fn c_text(n: nat, tag: Seq<char>) -> Seq<char> {
    close_text(n, "cac"@, tag)
}

/// `<cbc:tag>value</cbc:tag>` at depth `n`, with an optional attribute.
#[verifier::opaque]
pub open spec fn l_text(n: nat, tag: Seq<char>, value: Seq<char>, attr: Option<(Seq<char>, Seq<char>)>) -> Seq<char> {
    leaf_text(n, "cbc"@, tag, opt_attr_text(attr), value)
}

/// An amount element with its currency at depth `n`.
#[verifier::opaque]
pub open spec fn a_text(n: nat, tag: Seq<char>, value: Dec, cur: Seq<char>) -> Seq<char> {
    amount_text(n, "cbc"@, tag, decimal_text(value), cur)
}

/// A text where the condition holds, else nothing.
pub open spec fn when(b: bool, t: Seq<char>) -> Seq<char> {
    if b { t } else { Seq::empty() }
}

/// A leaf for an optional text, nothing where it is absent.
pub open spec fn opt_leaf(n: nat, tag: Seq<char>, v: Option<Seq<char>>) -> Seq<char> {
    match v {
        Some(t) => l_text(n, tag, t, None),
        None => Seq::empty(),
    }
}

/// The `schemeID` attribute of an identifier, where it has a scheme.
pub open spec fn scheme_attr(id: Identifier) -> Option<(Seq<char>, Seq<char>)> {
    match id.scheme {
        Some(sc) => Some(("schemeID"@, sc@)),
        None => None,
    }
}

/// Open an aggregate element (exact text).
fn open_x(s: &mut String, n: usize, tag: &str)
    ensures
        final(s)@ == old(s)@ + o_text(n as nat, tag@),
{
    proof {
        reveal(o_text);
    }
    open_el(s, n, "cac", tag);
}

/// Close an aggregate element (exact text).
fn close_x(s: &mut String, n: usize, tag: &str)
    ensures
        final(s)@ == old(s)@ + c_text(n as nat, tag@),
{
    proof {
        reveal(c_text);
    }
    close_el(s, n, "cac", tag);
}

/// A basic element with its text and an optional attribute (exact text).
fn leaf_x(s: &mut String, n: usize, tag: &str, value: &str, attr: Option<(&str, &str)>)
    ensures
        final(s)@ == old(s)@ + l_text(n as nat, tag@, value@, attr_view(attr)),
{
    proof {
        reveal(l_text);
    }
    leaf_el(s, n, "cbc", tag, value, attr);
}

/// An amount with its currency (exact text).
fn amount_x(s: &mut String, n: usize, tag: &str, value: InvoiceAmount, cur: &str)
    ensures
        final(s)@ == old(s)@ + a_text(n as nat, tag@, value.dec(), cur@),
{
    proof {
        reveal(a_text);
    }
    let t = value.to_string();
    amount_el(s, n, "cbc", tag, t.as_str(), cur);
}

/// Appending `u` after `a + t` is appending `t + u` after `a`.
proof fn lemma_app(a: Seq<char>, t: Seq<char>, u: Seq<char>)
    ensures
        (a + t) + u == a + (t + u),
{
    assert((a + t) + u =~= a + (t + u));
}

/// An amount element for an optional amount, nothing where it is absent.
pub open spec fn opt_amount_text(n: nat, tag: Seq<char>, v: Option<InvoiceAmount>, cur: Seq<char>) -> Seq<char> {
    match v {
        Some(a) => a_text(n, tag, a.dec(), cur),
        None => Seq::empty(),
    }
}

/// Append an amount element for an optional amount.
fn opt_amount_x(s: &mut String, n: usize, tag: &str, v: Option<InvoiceAmount>, cur: &str)
    ensures
        final(s)@ == old(s)@ + opt_amount_text(n as nat, tag@, v, cur@),
{
    if let Some(a) = v {
        amount_x(s, n, tag, a, cur);
    } else {
        assert(s@ =~= s@ + Seq::<char>::empty());
    }
}

/// Append a leaf for an optional text.
fn opt_leaf_x(s: &mut String, n: usize, tag: &str, v: &Option<String>)
    ensures
        final(s)@ == old(s)@ + opt_leaf(n as nat, tag@, opt_text(*v)),
{
    if let Some(t) = v {
        leaf_x(s, n, tag, t.as_str(), None);
    } else {
        assert(s@ =~= s@ + Seq::<char>::empty());
    }
}

/// The text of an optional string slice.
pub open spec fn opt_str(o: Option<&str>) -> Option<Seq<char>> {
    match o {
        Some(x) => Some(x@),
        None => None,
    }
}

/// A leaf for an optional date, nothing where it is absent.
pub open spec fn opt_date_text(n: nat, tag: Seq<char>, v: Option<Date>) -> Seq<char> {
    match v {
        Some(d) => l_text(n, tag, date_text(d), None),
        None => Seq::empty(),
    }
}

/// Append a leaf for an optional date.
fn opt_date_x(s: &mut String, n: usize, tag: &str, v: Option<Date>)
    ensures
        final(s)@ == old(s)@ + opt_date_text(n as nat, tag@, v),
{
    if let Some(d) = v {
        leaf_x(s, n, tag, d.to_string().as_str(), None);
    } else {
        assert(s@ =~= s@ + Seq::<char>::empty());
    }
}

/// An identifier under a wrapper element, with its scheme where it has one.
pub open spec fn id_in(n: nat, outer: Seq<char>, tag: Seq<char>, id: Identifier) -> Seq<char> {
    o_text(n, outer) + l_text(n + 1, tag, id.value@, scheme_attr(id)) + c_text(n, outer)
}

/// Append a unit price with its currency (exact text).
fn amount_unit_x(s: &mut String, n: usize, tag: &str, value: UnitPriceAmount, cur: &str)
    ensures
        final(s)@ == old(s)@ + a_text(n as nat, tag@, value.dec(), cur@),
{
    proof {
        reveal(a_text);
    }
    let t = value.to_string();
    amount_el(s, n, "cbc", tag, t.as_str(), cur);
}

/// `<cbc:tag a b>value</cbc:tag>` at depth `n`, with two attributes.
#[verifier::opaque]
pub open spec fn l2_text(n: nat, tag: Seq<char>, value: Seq<char>, a: (Seq<char>, Seq<char>), b: (Seq<char>, Seq<char>)) -> Seq<char> {
    leaf_text(n, "cbc"@, tag, attr_text(a.0, a.1) + attr_text(b.0, b.1), value)
}

/// A basic element with two attributes (exact text).
fn leaf2_x(s: &mut String, n: usize, tag: &str, value: &str, a: (&str, &str), b: (&str, &str))
    ensures
        final(s)@ == old(s)@ + l2_text(n as nat, tag@, value@, (a.0@, a.1@), (b.0@, b.1@)),
{
    proof {
        reveal(l2_text);
    }
    leaf_el2(s, n, "cbc", tag, value, a, b);
}

/// A leaf for an optional code, nothing where it is absent.
pub open spec fn opt_code_leaf(n: nat, tag: Seq<char>, v: Option<Code>) -> Seq<char> {
    match v {
        Some(c) => l_text(n, tag, c@, None),
        None => Seq::empty(),
    }
}

/// A leaf for an optional reference, nothing where it is absent.
pub open spec fn opt_ref_leaf(n: nat, tag: Seq<char>, v: Option<DocumentReference>) -> Seq<char> {
    match v {
        Some(r) => l_text(n, tag, r.0@, None),
        None => Seq::empty(),
    }
}

fn opt_code_x(s: &mut String, n: usize, tag: &str, v: &Option<Code>)
    ensures
        final(s)@ == old(s)@ + opt_code_leaf(n as nat, tag@, *v),
{
    if let Some(c) = v {
        leaf_x(s, n, tag, c.as_str(), None);
    } else {
        assert(s@ =~= s@ + Seq::<char>::empty());
    }
}

fn opt_ref_x(s: &mut String, n: usize, tag: &str, v: &Option<DocumentReference>)
    ensures
        final(s)@ == old(s)@ + opt_ref_leaf(n as nat, tag@, *v),
{
    if let Some(r) = v {
        leaf_x(s, n, tag, r.as_str(), None);
    } else {
        assert(s@ =~= s@ + Seq::<char>::empty());
    }
}

/// `a` is a prefix of `a + t`.
proof fn lemma_grows_by(a: Seq<char>, t: Seq<char>)
    ensures
        grows(a, a + t),
{
}

/// The `schemeID` attribute of an identifier, when it has a scheme.
fn scheme_id<'a>(key: &'a str, id: &'a Identifier) -> (r: Option<(&'a str, &'a str)>)
    ensures
        r is Some <==> id.scheme is Some,
        attr_view(r) == match id.scheme {
            Some(sc) => Some((key@, sc@)),
            None => None,
        },
{
    match &id.scheme {
        Some(sc) => Some((key, sc.as_str())),
        None => None,
    }
}

/// `ID` under an aggregate element, where there is a reference.
pub open spec fn id_ref_text(tag: Seq<char>, id: Option<DocumentReference>) -> Seq<char> {
    match id {
        Some(r) => o_text(1, tag) + l_text(2, "ID"@, r.0@, None) + c_text(1, tag),
        None => Seq::empty(),
    }
}

/// `ID` under an aggregate element, when there is a reference.
#[verifier::rlimit(40)]
fn write_id_ref(s: &mut String, tag: &str, id: &Option<crate::identifier::DocumentReference>)
    ensures
        final(s)@ == old(s)@ + id_ref_text(tag@, *id),
        grows(old(s)@, final(s)@),
{
    let ghost s0 = s@;
    if let Some(id) = id {
        open_x(s, 1, tag);
        leaf_x(s, 2, "ID", id.as_str(), None);
        close_x(s, 1, tag);
    }
    assert(s@ =~= s0 + id_ref_text(tag@, *id));
    proof {
        lemma_grows_by(s0, id_ref_text(tag@, *id));
    }
}

/// The text of the invoicing period and tax point date code; nothing where
/// there is neither a period date nor a code.
#[verifier::opaque]
pub open spec fn invoice_period_text(invoice: Invoice) -> Seq<char> {
    let has_period = match invoice.period {
        Some(p) => p.start is Some || p.end is Some,
        None => false,
    };
    if !has_period && invoice.tax_point_code is None {
        Seq::empty()
    } else {
        o_text(1, "InvoicePeriod"@) + match invoice.period {
            Some(p) => opt_date_text(2, "StartDate"@, p.start) + opt_date_text(2, "EndDate"@, p.end),
            None => Seq::empty(),
        } + match invoice.tax_point_code {
            Some(c) => l_text(2, "DescriptionCode"@, c@, None),
            None => Seq::empty(),
        } + c_text(1, "InvoicePeriod"@)
    }
}

/// The invoicing period and the tax point date code.
#[verifier::rlimit(40)]
fn write_invoice_period(s: &mut String, invoice: &Invoice)
    ensures
        final(s)@ == old(s)@ + invoice_period_text(*invoice),
        grows(old(s)@, final(s)@),
{
    let ghost s0 = s@;
    proof {
        reveal(invoice_period_text);
    }
    let has_period = match &invoice.period {
        Some(p) => p.start.is_some() || p.end.is_some(),
        None => false,
    };
    if !has_period && invoice.tax_point_code.is_none() {
        assert(s@ =~= s0 + invoice_period_text(*invoice));
        return;
    }
    open_x(s, 1, "InvoicePeriod");
    let ghost s1 = s@;
    if let Some(p) = &invoice.period {
        opt_date_x(s, 2, "StartDate", p.start);
        opt_date_x(s, 2, "EndDate", p.end);
    }
    let ghost s2 = s@;
    if let Some(c) = &invoice.tax_point_code {
        leaf_x(s, 2, "DescriptionCode", c.as_str(), None);
    }
    let ghost s3 = s@;
    close_x(s, 1, "InvoicePeriod");
    proof {
        assert(s@ =~= s0 + invoice_period_text(*invoice));
        lemma_grows_by(s0, invoice_period_text(*invoice));
    }
}

/// The attachment part of a supporting document.
pub open spec fn attachment_text(doc: SupportingDocument) -> Seq<char> {
    when(
        doc.uri is Some || doc.attachment is Some,
        o_text(2, "Attachment"@) + match doc.attachment {
            Some(att) => l2_text(
                3,
                "EmbeddedDocumentBinaryObject"@,
                b64_from(att.bytes@, 0),
                ("mimeCode"@, att.mime@),
                ("filename"@, att.filename@),
            ),
            None => Seq::empty(),
        } + match doc.uri {
            Some(uri) => o_text(3, "ExternalReference"@) + l_text(4, "URI"@, uri@, None) + c_text(3, "ExternalReference"@),
            None => Seq::empty(),
        } + c_text(2, "Attachment"@),
    )
}

/// The text of a supporting document, with its attachment as base64.
#[verifier::opaque]
pub open spec fn supporting_text(doc: SupportingDocument) -> Seq<char> {
    o_text(1, "AdditionalDocumentReference"@) + l_text(2, "ID"@, doc.id.0@, None) + opt_leaf(
        2,
        "DocumentDescription"@,
        opt_text(doc.description),
    ) + attachment_text(doc) + c_text(1, "AdditionalDocumentReference"@)
}

/// A supporting document, with its attachment as base64.
#[verifier::rlimit(40)]
fn write_supporting(s: &mut String, doc: &SupportingDocument)
    ensures
        final(s)@ == old(s)@ + supporting_text(*doc),
        grows(old(s)@, final(s)@),
{
    let ghost s0 = s@;
    open_x(s, 1, "AdditionalDocumentReference");
    leaf_x(s, 2, "ID", doc.id.as_str(), None);
    opt_leaf_x(s, 2, "DocumentDescription", &doc.description);
    let ghost s1 = s@;
    if doc.uri.is_some() || doc.attachment.is_some() {
        open_x(s, 2, "Attachment");
        let ghost s2 = s@;
        if let Some(att) = &doc.attachment {
            let text = crate::formats::base64::b64_encode(att.bytes.as_slice());
            leaf2_x(
                s,
                3,
                "EmbeddedDocumentBinaryObject",
                text.as_str(),
                ("mimeCode", att.mime.as_str()),
                ("filename", att.filename.as_str()),
            );
        }
        let ghost s3 = s@;
        if let Some(uri) = &doc.uri {
            open_x(s, 3, "ExternalReference");
            leaf_x(s, 4, "URI", uri.as_str(), None);
            close_x(s, 3, "ExternalReference");
        }
        let ghost s4 = s@;
        close_x(s, 2, "Attachment");
    }
    assert(s@ =~= s1 + attachment_text(*doc));
    close_x(s, 1, "AdditionalDocumentReference");
    proof {
        reveal(supporting_text);
        assert(s@ =~= s0 + supporting_text(*doc));
        lemma_grows_by(s0, supporting_text(*doc));
    }
}

/// The text of the payee party: identifier, name where it is not empty,
/// legal registration.
#[verifier::opaque]
pub open spec fn payee_text(payee: Payee) -> Seq<char> {
    o_text(1, "PayeeParty"@) + match payee.identifier {
        Some(id) => id_in(2, "PartyIdentification"@, "ID"@, id),
        None => Seq::empty(),
    } + when(payee.name@.len() > 0, o_text(2, "PartyName"@) + l_text(3, "Name"@, payee.name@, None) + c_text(2, "PartyName"@))
        + match payee.legal_registration {
        Some(l) => id_in(2, "PartyLegalEntity"@, "CompanyID"@, l),
        None => Seq::empty(),
    } + c_text(1, "PayeeParty"@)
}

/// The payee party.
#[verifier::rlimit(50)]
fn write_payee(s: &mut String, payee: &Payee)
    ensures
        final(s)@ == old(s)@ + payee_text(*payee),
        grows(old(s)@, final(s)@),
{
    let ghost s0 = s@;
    open_x(s, 1, "PayeeParty");
    let ghost s1 = s@;
    if let Some(id) = &payee.identifier {
        open_x(s, 2, "PartyIdentification");
        leaf_x(s, 3, "ID", id.value.as_str(), scheme_id("schemeID", id));
        close_x(s, 2, "PartyIdentification");
    }
    let ghost s2 = s@;
    if has_chars(payee.name.as_str()) {
        open_x(s, 2, "PartyName");
        leaf_x(s, 3, "Name", payee.name.as_str(), None);
        close_x(s, 2, "PartyName");
    }
    let ghost s3 = s@;
    if let Some(legal) = &payee.legal_registration {
        open_x(s, 2, "PartyLegalEntity");
        leaf_x(s, 3, "CompanyID", legal.value.as_str(), scheme_id("schemeID", legal));
        close_x(s, 2, "PartyLegalEntity");
    }
    let ghost s4 = s@;
    close_x(s, 1, "PayeeParty");
    proof {
        reveal(payee_text);
        assert(s@ =~= s0 + payee_text(*payee));
        lemma_grows_by(s0, payee_text(*payee));
    }
}

/// The party name part of a tax representative: nothing for an empty name.
pub open spec fn tax_rep_name_text(tr: TaxRepresentative) -> Seq<char> {
    when(tr.name@.len() > 0, o_text(2, "PartyName"@) + l_text(3, "Name"@, tr.name@, None) + c_text(2, "PartyName"@))
}

/// The country part of a tax representative: nothing without a country.
pub open spec fn tax_rep_country_text(tr: TaxRepresentative) -> Seq<char> {
    match tr.address {
        Some(addr) => match addr.country {
            Some(cc) => when(
                cc@.len() > 0,
                o_text(2, "PostalAddress"@) + o_text(3, "Country"@) + l_text(4, "IdentificationCode"@, cc@, None) + c_text(
                    3,
                    "Country"@,
                ) + c_text(2, "PostalAddress"@),
            ),
            None => Seq::empty(),
        },
        None => Seq::empty(),
    }
}

/// The VAT identifier part of a tax representative.
pub open spec fn tax_rep_vat_text(tr: TaxRepresentative) -> Seq<char> {
    match tr.vat_identifier {
        Some(vat) => o_text(2, "PartyTaxScheme"@) + l_text(3, "CompanyID"@, vat.value@, None) + o_text(3, "TaxScheme"@)
            + l_text(4, "ID"@, "VAT"@, None) + c_text(3, "TaxScheme"@) + c_text(2, "PartyTaxScheme"@),
        None => Seq::empty(),
    }
}

/// The text of the seller's tax representative.
#[verifier::opaque]
pub open spec fn tax_rep_text(tr: TaxRepresentative) -> Seq<char> {
    o_text(1, "TaxRepresentativeParty"@) + tax_rep_name_text(tr) + tax_rep_country_text(tr) + tax_rep_vat_text(tr)
        + c_text(1, "TaxRepresentativeParty"@)
}

/// The seller's tax representative: name, country and VAT identifier sit
/// directly under the party element.
#[verifier::rlimit(40)]
fn write_tax_rep(s: &mut String, tr: &TaxRepresentative)
    ensures
        final(s)@ == old(s)@ + tax_rep_text(*tr),
        grows(old(s)@, final(s)@),
{
    let ghost s0 = s@;
    open_x(s, 1, "TaxRepresentativeParty");
    let ghost s1 = s@;
    if has_chars(tr.name.as_str()) {
        open_x(s, 2, "PartyName");
        leaf_x(s, 3, "Name", tr.name.as_str(), None);
        close_x(s, 2, "PartyName");
        assert(s@ =~= s1 + tax_rep_name_text(*tr));
    } else {
        assert(s@ =~= s1 + tax_rep_name_text(*tr));
    }
    let ghost s2 = s@;
    if let Some(addr) = &tr.address {
        if let Some(cc) = &addr.country {
            if has_chars(cc.as_str()) {
                open_x(s, 2, "PostalAddress");
                open_x(s, 3, "Country");
                leaf_x(s, 4, "IdentificationCode", cc.as_str(), None);
                close_x(s, 3, "Country");
                close_x(s, 2, "PostalAddress");
            }
        }
    }
    assert(s@ =~= s2 + tax_rep_country_text(*tr));
    let ghost s3 = s@;
    if let Some(vat) = &tr.vat_identifier {
        open_x(s, 2, "PartyTaxScheme");
        leaf_x(s, 3, "CompanyID", vat.value.as_str(), None);
        open_x(s, 3, "TaxScheme");
        leaf_x(s, 4, "ID", "VAT", None);
        close_x(s, 3, "TaxScheme");
        close_x(s, 2, "PartyTaxScheme");
    }
    assert(s@ =~= s3 + tax_rep_vat_text(*tr));
    let ghost s4 = s@;
    close_x(s, 1, "TaxRepresentativeParty");
    proof {
        reveal(tax_rep_text);
        assert(s@ =~= s0 + tax_rep_text(*tr));
        lemma_grows_by(s0, tax_rep_text(*tr));
    }
}

/// The delivery country written: a non-empty country code of the address.
pub open spec fn delivery_country(d: Delivery) -> Option<Seq<char>> {
    match d.address {
        Some(a) => match a.country {
            Some(c) => if c@.len() > 0 { Some(c@) } else { None },
            None => None,
        },
        None => None,
    }
}

/// The location part of a delivery: deliver-to name and country.
pub open spec fn delivery_location_text(d: Delivery) -> Seq<char> {
    when(
        d.name is Some || delivery_country(d) is Some,
        o_text(2, "DeliveryLocation"@) + o_text(3, "Address"@) + match d.name {
            Some(n) => o_text(4, "AddressLine"@) + l_text(5, "Line"@, n@, None) + c_text(4, "AddressLine"@),
            None => Seq::empty(),
        } + match delivery_country(d) {
            Some(cc) => o_text(4, "Country"@) + l_text(5, "IdentificationCode"@, cc, None) + c_text(4, "Country"@),
            None => Seq::empty(),
        } + c_text(3, "Address"@) + c_text(2, "DeliveryLocation"@),
    )
}

/// The text of the delivery: date, and a location with the deliver-to name
/// and country.
#[verifier::opaque]
pub open spec fn delivery_text(d: Delivery) -> Seq<char> {
    o_text(1, "Delivery"@) + opt_date_text(2, "ActualDeliveryDate"@, d.date) + delivery_location_text(d) + c_text(1, "Delivery"@)
}

/// The delivery: date, and a location with the deliver-to name and country.
#[verifier::rlimit(40)]
fn write_delivery(s: &mut String, d: &Delivery)
    ensures
        final(s)@ == old(s)@ + delivery_text(*d),
        grows(old(s)@, final(s)@),
{
    let ghost s0 = s@;
    open_x(s, 1, "Delivery");
    opt_date_x(s, 2, "ActualDeliveryDate", d.date);
    let ghost s1 = s@;
    let country: Option<&str> = match &d.address {
        Some(a) => match &a.country {
            Some(c) => if has_chars(c.as_str()) {
                Some(c.as_str())
            } else {
                None
            },
            None => None,
        },
        None => None,
    };
    assert(opt_str(country) == delivery_country(*d));
    if d.name.is_some() || country.is_some() {
        open_x(s, 2, "DeliveryLocation");
        open_x(s, 3, "Address");
        let ghost s2 = s@;
        if let Some(n) = &d.name {
            open_x(s, 4, "AddressLine");
            leaf_x(s, 5, "Line", n.as_str(), None);
            close_x(s, 4, "AddressLine");
        }
        let ghost s3 = s@;
        if let Some(cc) = country {
            open_x(s, 4, "Country");
            leaf_x(s, 5, "IdentificationCode", cc, None);
            close_x(s, 4, "Country");
        }
        let ghost s4 = s@;
        close_x(s, 3, "Address");
        close_x(s, 2, "DeliveryLocation");
    }
    assert(s@ =~= s1 + delivery_location_text(*d));
    close_x(s, 1, "Delivery");
    proof {
        reveal(delivery_text);
        assert(s@ =~= s0 + delivery_text(*d));
        lemma_grows_by(s0, delivery_text(*d));
    }
}

/// The identification elements of a party, in order.
pub open spec fn party_ids_text(ids: Seq<Identifier>) -> Seq<char>
    decreases ids.len(),
{
    if ids.len() == 0 {
        Seq::empty()
    } else {
        party_ids_text(ids.drop_last()) + id_in(3, "PartyIdentification"@, "ID"@, ids.last())
    }
}

/// The endpoint part of a party.
pub open spec fn party_endpoint_text(party: Party) -> Seq<char> {
    match party.electronic_address {
        Some(ep) => l_text(3, "EndpointID"@, ep.value@, scheme_attr(ep)),
        None => Seq::empty(),
    }
}

/// The name part of a party: nothing for an empty name.
pub open spec fn party_name_text(party: Party) -> Seq<char> {
    when(party.name@.len() > 0, o_text(3, "PartyName"@) + l_text(4, "Name"@, party.name@, None) + c_text(3, "PartyName"@))
}

/// The postal address of a party: street, city, post code and a non-empty
/// country.
pub open spec fn party_address_text(party: Party) -> Seq<char> {
    o_text(3, "PostalAddress"@) + match party.address {
        Some(addr) => opt_leaf(4, "StreetName"@, opt_text(addr.line1)) + opt_leaf(4, "CityName"@, opt_text(addr.city)) + opt_leaf(
            4,
            "PostalZone"@,
            opt_text(addr.post_code),
        ),
        None => Seq::empty(),
    } + when(
        party_country(party).len() > 0,
        o_text(4, "Country"@) + l_text(5, "IdentificationCode"@, party_country(party), None) + c_text(4, "Country"@),
    ) + c_text(3, "PostalAddress"@)
}

/// The text of the identification, name and postal address of a party.
#[verifier::opaque]
pub open spec fn party_head_text(party: Party) -> Seq<char> {
    party_endpoint_text(party) + party_ids_text(party.identifiers@) + party_name_text(party) + party_address_text(party)
}

/// Identification, name and postal address of a party.
#[verifier::rlimit(40)]
fn write_party_head(s: &mut String, party: &Party)
    ensures
        final(s)@ == old(s)@ + party_head_text(*party),
        grows(old(s)@, final(s)@),
{
    let ghost s0 = s@;
    if let Some(ep) = &party.electronic_address {
        leaf_x(s, 3, "EndpointID", ep.value.as_str(), scheme_id("schemeID", ep));
    }
    assert(s@ =~= s0 + party_endpoint_text(*party));
    let mut i: usize = 0;
    let ghost start = s@;
    assert(party.identifiers@.take(0) =~= Seq::<Identifier>::empty());
    while i < party.identifiers.len()
        invariant
            i <= party.identifiers.len(),
            s@ == start + party_ids_text(party.identifiers@.take(i as int)),
        decreases party.identifiers.len() - i,
    {
        let ghost before = s@;
        let id = &party.identifiers[i];
        open_x(s, 3, "PartyIdentification");
        leaf_x(s, 4, "ID", id.value.as_str(), scheme_id("schemeID", id));
        close_x(s, 3, "PartyIdentification");
        proof {
            let ids = party.identifiers@;
            assert(ids.take(i + 1).drop_last() =~= ids.take(i as int));
            assert(s@ =~= before + id_in(3, "PartyIdentification"@, "ID"@, ids[i as int]));
            lemma_app(start, party_ids_text(ids.take(i as int)), id_in(3, "PartyIdentification"@, "ID"@, ids[i as int]));
        }
        i = i + 1;
    }
    assert(party.identifiers@.take(party.identifiers.len() as int) =~= party.identifiers@);
    let ghost s2 = s@;
    write_party_name_and_address(s, party);
    proof {
        reveal(party_head_text);
        assert(s@ =~= s0 + party_head_text(*party));
        lemma_grows_by(s0, party_head_text(*party));
    }
}

#[verifier::rlimit(40)]
fn write_party_name_and_address(s: &mut String, party: &Party)
    ensures
        final(s)@ == old(s)@ + party_name_text(*party) + party_address_text(*party),
{
    let ghost s0 = s@;
    if has_chars(party.name.as_str()) {
        open_x(s, 3, "PartyName");
        leaf_x(s, 4, "Name", party.name.as_str(), None);
        close_x(s, 3, "PartyName");
    }
    assert(s@ =~= s0 + party_name_text(*party));
    let ghost s1 = s@;
    open_x(s, 3, "PostalAddress");
    let ghost s2 = s@;
    if let Some(addr) = &party.address {
        opt_leaf_x(s, 4, "StreetName", &addr.line1);
        opt_leaf_x(s, 4, "CityName", &addr.city);
        opt_leaf_x(s, 4, "PostalZone", &addr.post_code);
    }
    let ghost s3 = s@;
    if has_chars(party.country()) {
        open_x(s, 4, "Country");
        leaf_x(s, 5, "IdentificationCode", party.country(), None);
        close_x(s, 4, "Country");
    }
    let ghost s4 = s@;
    close_x(s, 3, "PostalAddress");
    assert(s@ =~= s1 + party_address_text(*party));
    assert(s@ =~= s0 + party_name_text(*party) + party_address_text(*party));
}

/// The VAT identifier part of a party.
pub open spec fn party_vat_text(party: Party) -> Seq<char> {
    match party.vat_identifier {
        Some(vat) => o_text(3, "PartyTaxScheme"@) + l_text(4, "CompanyID"@, vat.value@, None) + o_text(4, "TaxScheme"@)
            + l_text(5, "ID"@, "VAT"@, None) + c_text(4, "TaxScheme"@) + c_text(3, "PartyTaxScheme"@),
        None => Seq::empty(),
    }
}

/// The tax registration part of a party: under PINT-MY its scheme is `GST`.
pub open spec fn party_tin_text(party: Party, profile: Profile) -> Seq<char> {
    match party.tax_registration {
        Some(tin) => o_text(3, "PartyTaxScheme"@) + l_text(
            4,
            "CompanyID"@,
            tin.value@,
            if profile == Profile::PintMy { Some(("schemeID"@, "GST"@)) } else { scheme_attr(tin) },
        ) + o_text(4, "TaxScheme"@) + l_text(5, "ID"@, "VAT"@, None) + c_text(4, "TaxScheme"@) + c_text(3, "PartyTaxScheme"@),
        None => Seq::empty(),
    }
}

/// The legal entity part of a party.
pub open spec fn party_legal_text(party: Party) -> Seq<char> {
    match party.legal_registration {
        Some(legal) => o_text(3, "PartyLegalEntity"@) + l_text(4, "RegistrationName"@, party.name@, None) + l_text(
            4,
            "CompanyID"@,
            legal.value@,
            scheme_attr(legal),
        ) + c_text(3, "PartyLegalEntity"@),
        None => Seq::empty(),
    }
}

/// The contact part of a party.
pub open spec fn party_contact_text(party: Party) -> Seq<char> {
    match party.contact {
        Some(c) => o_text(3, "Contact"@) + opt_leaf(4, "Name"@, opt_text(c.point)) + opt_leaf(4, "Telephone"@, opt_text(c.phone))
            + opt_leaf(4, "ElectronicMail"@, opt_text(c.email)) + c_text(3, "Contact"@),
        None => Seq::empty(),
    }
}

/// The text of the tax schemes, legal entity and contact of a party.
#[verifier::opaque]
pub open spec fn party_tail_text(party: Party, profile: Profile) -> Seq<char> {
    party_vat_text(party) + party_tin_text(party, profile) + party_legal_text(party) + party_contact_text(party)
}

/// Tax schemes, legal entity and contact of a party. Under PINT-MY the tax
/// registration carries the scheme `GST`.
#[verifier::rlimit(40)]
fn write_party_tail(s: &mut String, party: &Party, profile: Profile)
    ensures
        final(s)@ == old(s)@ + party_tail_text(*party, profile),
        grows(old(s)@, final(s)@),
{
    let ghost s0 = s@;
    write_party_vat(s, party);
    write_party_tin(s, party, profile);
    write_party_legal(s, party);
    write_party_contact(s, party);
    proof {
        reveal(party_tail_text);
        assert(s@ =~= s0 + party_tail_text(*party, profile));
        lemma_grows_by(s0, party_tail_text(*party, profile));
    }
}

#[verifier::rlimit(40)]
fn write_party_vat(s: &mut String, party: &Party)
    ensures
        final(s)@ == old(s)@ + party_vat_text(*party),
{
    let ghost s0 = s@;
    if let Some(vat) = &party.vat_identifier {
        open_x(s, 3, "PartyTaxScheme");
        leaf_x(s, 4, "CompanyID", vat.value.as_str(), None);
        open_x(s, 4, "TaxScheme");
        leaf_x(s, 5, "ID", "VAT", None);
        close_x(s, 4, "TaxScheme");
        close_x(s, 3, "PartyTaxScheme");
    }
    assert(s@ =~= s0 + party_vat_text(*party));
}

#[verifier::rlimit(40)]
fn write_party_tin(s: &mut String, party: &Party, profile: Profile)
    ensures
        final(s)@ == old(s)@ + party_tin_text(*party, profile),
{
    let ghost s0 = s@;
    if let Some(tin) = &party.tax_registration {
        open_x(s, 3, "PartyTaxScheme");
        let scheme = if profile == Profile::PintMy {
            Some(("schemeID", "GST"))
        } else {
            scheme_id("schemeID", tin)
        };
        leaf_x(s, 4, "CompanyID", tin.value.as_str(), scheme);
        open_x(s, 4, "TaxScheme");
        leaf_x(s, 5, "ID", "VAT", None);
        close_x(s, 4, "TaxScheme");
        close_x(s, 3, "PartyTaxScheme");
    }
    assert(s@ =~= s0 + party_tin_text(*party, profile));
}

#[verifier::rlimit(40)]
fn write_party_legal(s: &mut String, party: &Party)
    ensures
        final(s)@ == old(s)@ + party_legal_text(*party),
{
    let ghost s0 = s@;
    if let Some(legal) = &party.legal_registration {
        open_x(s, 3, "PartyLegalEntity");
        leaf_x(s, 4, "RegistrationName", party.name.as_str(), None);
        leaf_x(s, 4, "CompanyID", legal.value.as_str(), scheme_id("schemeID", legal));
        close_x(s, 3, "PartyLegalEntity");
    }
    assert(s@ =~= s0 + party_legal_text(*party));
}

#[verifier::rlimit(40)]
fn write_party_contact(s: &mut String, party: &Party)
    ensures
        final(s)@ == old(s)@ + party_contact_text(*party),
{
    let ghost s0 = s@;
    if let Some(c) = &party.contact {
        open_x(s, 3, "Contact");
        opt_leaf_x(s, 4, "Name", &c.point);
        opt_leaf_x(s, 4, "Telephone", &c.phone);
        opt_leaf_x(s, 4, "ElectronicMail", &c.email);
        close_x(s, 3, "Contact");
    }
    assert(s@ =~= s0 + party_contact_text(*party));
}

/// The text of a seller or buyer party under its role element.
#[verifier::opaque]
pub open spec fn party_text(tag: Seq<char>, party: Party, profile: Profile) -> Seq<char> {
    o_text(1, tag) + o_text(2, "Party"@) + party_head_text(party) + party_tail_text(party, profile) + c_text(2, "Party"@)
        + c_text(1, tag)
}

/// A seller or buyer party under its role element.
#[verifier::rlimit(40)]
fn write_party(s: &mut String, tag: &str, party: &Party, profile: Profile)
    ensures
        final(s)@ == old(s)@ + party_text(tag@, *party, profile),
        grows(old(s)@, final(s)@),
{
    let ghost s0 = s@;
    open_x(s, 1, tag);
    open_x(s, 2, "Party");
    write_party_head(s, party);
    write_party_tail(s, party, profile);
    close_x(s, 2, "Party");
    close_x(s, 1, tag);
    proof {
        reveal(party_text);
        assert(s@ =~= s0 + party_text(tag@, *party, profile));
        lemma_grows_by(s0, party_text(tag@, *party, profile));
    }
}

/// The text of a payee account: its id, name, and provider branch.
#[verifier::opaque]
pub open spec fn financial_account_text(n: nat, tag: Seq<char>, a: CreditTransfer) -> Seq<char> {
    o_text(n, tag) + l_text(n + 1, "ID"@, a.account_id.value@, None) + opt_leaf(n + 1, "Name"@, opt_text(a.account_name))
        + match a.provider {
        Some(bic) => o_text(n + 1, "FinancialInstitutionBranch"@) + l_text(n + 2, "ID"@, bic@, None) + c_text(
            n + 1,
            "FinancialInstitutionBranch"@,
        ),
        None => Seq::empty(),
    } + c_text(n, tag)
}

/// A payee account: IBAN or other id, name, and provider.
#[verifier::rlimit(40)]
fn write_financial_account(s: &mut String, n: usize, tag: &str, a: &CreditTransfer)
    requires
        n < 100,
    ensures
        final(s)@ == old(s)@ + financial_account_text(n as nat, tag@, *a),
        grows(old(s)@, final(s)@),
{
    let ghost s0 = s@;
    open_x(s, n, tag);
    leaf_x(s, n + 1, "ID", a.account_id.value.as_str(), None);
    opt_leaf_x(s, n + 1, "Name", &a.account_name);
    let ghost s1 = s@;
    if let Some(bic) = &a.provider {
        open_x(s, n + 1, "FinancialInstitutionBranch");
        leaf_x(s, n + 2, "ID", bic.as_str(), None);
        close_x(s, n + 1, "FinancialInstitutionBranch");
    }
    close_x(s, n, tag);
    proof {
        reveal(financial_account_text);
        assert(s@ =~= s0 + financial_account_text(n as nat, tag@, *a));
        lemma_grows_by(s0, financial_account_text(n as nat, tag@, *a));
    }
}

/// The payee account elements of a credit transfer, in order.
pub open spec fn accounts_text(accounts: Seq<CreditTransfer>) -> Seq<char>
    decreases accounts.len(),
{
    if accounts.len() == 0 {
        Seq::empty()
    } else {
        accounts_text(accounts.drop_last()) + financial_account_text(2, "PayeeFinancialAccount"@, accounts.last())
    }
}

/// The means part of payment instructions.
pub open spec fn means_text(means: Option<PaymentMeans>) -> Seq<char> {
    match means {
        Some(PaymentMeans::CreditTransfer(accounts)) => accounts_text(accounts@),
        Some(PaymentMeans::Card(card)) => o_text(2, "CardAccount"@) + l_text(3, "PrimaryAccountNumberID"@, card.pan@, None)
            + opt_leaf(3, "HolderName"@, opt_text(card.holder)) + c_text(2, "CardAccount"@),
        Some(PaymentMeans::DirectDebit(dd)) => (match dd.creditor_id {
            Some(cred) => o_text(2, "PayeeFinancialAccount"@) + l_text(3, "ID"@, cred.value@, None) + c_text(
                2,
                "PayeeFinancialAccount"@,
            ),
            None => Seq::empty(),
        }) + o_text(2, "PaymentMandate"@) + opt_leaf(3, "ID"@, opt_text(dd.mandate)) + match dd.debited_account {
            Some(acc) => o_text(3, "PayerFinancialAccount"@) + l_text(4, "ID"@, acc.value@, None) + c_text(
                3,
                "PayerFinancialAccount"@,
            ),
            None => Seq::empty(),
        } + c_text(2, "PaymentMandate"@),
        None => Seq::empty(),
    }
}

/// The text of payment instructions.
#[verifier::opaque]
pub open spec fn payment_text(pay: PaymentInstructions) -> Seq<char> {
    o_text(1, "PaymentMeans"@) + match pay.means_code {
        Some(c) => l_text(
            2,
            "PaymentMeansCode"@,
            c@,
            match pay.means_text {
                Some(t) => Some(("name"@, t@)),
                None => None,
            },
        ),
        None => Seq::empty(),
    } + opt_leaf(2, "PaymentID"@, opt_text(pay.remittance)) + means_text(pay.means) + c_text(1, "PaymentMeans"@)
}

fn write_accounts(s: &mut String, accounts: &Vec<CreditTransfer>)
    ensures
        final(s)@ == old(s)@ + accounts_text(accounts@),
{
    let ghost start = s@;
    let mut i: usize = 0;
    assert(accounts@.take(0) =~= Seq::<CreditTransfer>::empty());
    assert(start =~= start + Seq::<char>::empty());
    while i < accounts.len()
        invariant
            i <= accounts.len(),
            s@ == start + accounts_text(accounts@.take(i as int)),
        decreases accounts.len() - i,
    {
        write_financial_account(s, 2, "PayeeFinancialAccount", &accounts[i]);
        proof {
            assert(accounts@.take(i + 1).drop_last() =~= accounts@.take(i as int));
            lemma_app(start, accounts_text(accounts@.take(i as int)), financial_account_text(2, "PayeeFinancialAccount"@, accounts@[i as int]));
        }
        i = i + 1;
    }
    assert(accounts@.take(accounts.len() as int) =~= accounts@);
}

#[verifier::rlimit(40)]
fn write_means(s: &mut String, means: &Option<PaymentMeans>)
    ensures
        final(s)@ == old(s)@ + means_text(*means),
{
    let ghost s0 = s@;
    match means {
        Some(PaymentMeans::CreditTransfer(accounts)) => {
            write_accounts(s, accounts);
        },
        Some(PaymentMeans::Card(card)) => {
            open_x(s, 2, "CardAccount");
            leaf_x(s, 3, "PrimaryAccountNumberID", card.pan.as_str(), None);
            opt_leaf_x(s, 3, "HolderName", &card.holder);
            close_x(s, 2, "CardAccount");
            assert(s@ =~= s0 + means_text(*means));
        },
        Some(PaymentMeans::DirectDebit(dd)) => {
            if let Some(cred) = &dd.creditor_id {
                open_x(s, 2, "PayeeFinancialAccount");
                leaf_x(s, 3, "ID", cred.value.as_str(), None);
                close_x(s, 2, "PayeeFinancialAccount");
            }
            let ghost s1 = s@;
            open_x(s, 2, "PaymentMandate");
            opt_leaf_x(s, 3, "ID", &dd.mandate);
            let ghost s2 = s@;
            if let Some(acc) = &dd.debited_account {
                open_x(s, 3, "PayerFinancialAccount");
                leaf_x(s, 4, "ID", acc.value.as_str(), None);
                close_x(s, 3, "PayerFinancialAccount");
            }
            let ghost s3 = s@;
            close_x(s, 2, "PaymentMandate");
            assert(s@ =~= s0 + means_text(*means));
        },
        None => {
            assert(s@ =~= s0 + means_text(*means));
        },
    }
}

/// Payment means: code with its text as `@name`, remittance, and the
/// accounts of the means.
#[verifier::rlimit(40)]
fn write_payment(s: &mut String, pay: &PaymentInstructions)
    ensures
        final(s)@ == old(s)@ + payment_text(*pay),
        grows(old(s)@, final(s)@),
{
    let ghost s0 = s@;
    open_x(s, 1, "PaymentMeans");
    let ghost s1 = s@;
    if let Some(c) = &pay.means_code {
        let name = match &pay.means_text {
            Some(t) => Some(("name", t.as_str())),
            None => None,
        };
        leaf_x(s, 2, "PaymentMeansCode", c.as_str(), name);
    }
    let ghost s2 = s@;
    opt_leaf_x(s, 2, "PaymentID", &pay.remittance);
    write_means(s, &pay.means);
    close_x(s, 1, "PaymentMeans");
    proof {
        reveal(payment_text);
        assert(s@ =~= s0 + payment_text(*pay));
        lemma_grows_by(s0, payment_text(*pay));
    }
}

/// The text of a tax category element: its code, its rate where it has one,
/// and the scheme written for the profile.
#[verifier::opaque]
pub open spec fn tax_category_text(n: nat, tag: Seq<char>, tax: TaxCategory, profile: Profile) -> Seq<char> {
    o_text(n, tag) + l_text(n + 1, "ID"@, tax.code@, None) + match tax.percent {
        Some(p) => l_text(n + 1, "Percent"@, normal_text(p.dec()), None),
        None => Seq::empty(),
    } + o_text(n + 1, "TaxScheme"@) + l_text(n + 2, "ID"@, wire_scheme_of(profile, tax.system, tax.code@), None)
        + c_text(n + 1, "TaxScheme"@) + c_text(n, tag)
}

/// A tax category with its rate and scheme.
#[verifier::rlimit(40)]
fn write_tax_category(s: &mut String, n: usize, tag: &str, tax: &TaxCategory, profile: Profile)
    requires
        n < 100,
    ensures
        final(s)@ == old(s)@ + tax_category_text(n as nat, tag@, *tax, profile),
        grows(old(s)@, final(s)@),
{
    let ghost s0 = s@;
    open_x(s, n, tag);
    leaf_x(s, n + 1, "ID", tax.code.as_str(), None);
    let ghost s1 = s@;
    if let Some(p) = tax.percent {
        leaf_x(s, n + 1, "Percent", p.to_string().as_str(), None);
    }
    let ghost s2 = s@;
    open_x(s, n + 1, "TaxScheme");
    leaf_x(s, n + 2, "ID", wire_scheme(profile, tax.system, tax.code.as_str()), None);
    close_x(s, n + 1, "TaxScheme");
    close_x(s, n, tag);
    proof {
        reveal(tax_category_text);
        let t = tax_category_text(n as nat, tag@, *tax, profile);
        assert(s@ =~= s0 + t);
        lemma_grows_by(s0, t);
    }
}

/// The text of a document-level allowance or charge.
#[verifier::opaque]
pub open spec fn allowance_text(a: AllowanceCharge, charge: bool, cur: Seq<char>, profile: Profile) -> Seq<char> {
    o_text(1, "AllowanceCharge"@) + l_text(2, "ChargeIndicator"@, if charge { "true"@ } else { "false"@ }, None)
        + match a.percent {
        Some(p) => l_text(2, "MultiplierFactorNumeric"@, normal_text(p.dec()), None),
        None => Seq::empty(),
    } + a_text(2, "Amount"@, a.amount.dec(), cur) + opt_amount_text(2, "BaseAmount"@, a.base, cur) + match a.tax {
        Some(t) => tax_category_text(2, "TaxCategory"@, t, profile),
        None => Seq::empty(),
    } + c_text(1, "AllowanceCharge"@)
}

/// A document-level allowance or charge.
#[verifier::rlimit(40)]
fn write_allowance(s: &mut String, a: &AllowanceCharge, charge: bool, cur: &str, profile: Profile)
    ensures
        final(s)@ == old(s)@ + allowance_text(*a, charge, cur@, profile),
        grows(old(s)@, final(s)@),
{
    let ghost s0 = s@;
    open_x(s, 1, "AllowanceCharge");
    leaf_x(s, 2, "ChargeIndicator", if charge { "true" } else { "false" }, None);
    let ghost s1 = s@;
    if let Some(p) = a.percent {
        leaf_x(s, 2, "MultiplierFactorNumeric", p.to_string().as_str(), None);
    }
    let ghost s2 = s@;
    amount_x(s, 2, "Amount", a.amount, cur);
    opt_amount_x(s, 2, "BaseAmount", a.base, cur);
    let ghost s3 = s@;
    if let Some(tax) = &a.tax {
        write_tax_category(s, 2, "TaxCategory", tax, profile);
    }
    let ghost s4 = s@;
    close_x(s, 1, "AllowanceCharge");
    proof {
        reveal(allowance_text);
        assert(s@ =~= s0 + allowance_text(*a, charge, cur@, profile));
        lemma_grows_by(s0, allowance_text(*a, charge, cur@, profile));
    }
}

/// A tax subtotal element for a breakdown row.
pub open spec fn subtotal_text(row: TaxBreakdown, cur: Seq<char>, profile: Profile) -> Seq<char> {
    o_text(2, "TaxSubtotal"@) + a_text(3, "TaxableAmount"@, row.taxable.dec(), cur) + a_text(3, "TaxAmount"@, row.tax.dec(), cur)
        + o_text(3, "TaxCategory"@) + l_text(4, "ID"@, row.category@, None) + match row.rate {
        Some(r) => l_text(4, "Percent"@, normal_text(r.dec()), None),
        None => Seq::empty(),
    } + opt_leaf(4, "TaxExemptionReason"@, opt_text(row.exemption_reason)) + o_text(4, "TaxScheme"@) + l_text(
        5,
        "ID"@,
        wire_scheme_of(profile, row.system, row.category@),
        None,
    ) + c_text(4, "TaxScheme"@) + c_text(3, "TaxCategory"@) + c_text(2, "TaxSubtotal"@)
}

/// The tax subtotals, in order.
pub open spec fn subtotals_text(rows: Seq<TaxBreakdown>, cur: Seq<char>, profile: Profile) -> Seq<char>
    decreases rows.len(),
{
    if rows.len() == 0 {
        Seq::empty()
    } else {
        subtotals_text(rows.drop_last(), cur, profile) + subtotal_text(rows.last(), cur, profile)
    }
}

/// The tax total in accounting currency, where there is a tax currency and
/// an accounting tax total.
pub open spec fn accounting_tax_text(invoice: Invoice) -> Seq<char> {
    let accounting = match invoice.totals {
        Some(t) => t.tax_total_accounting,
        None => None,
    };
    match (invoice.tax_currency, accounting) {
        (Some(tc), Some(bt111)) => o_text(1, "TaxTotal"@) + a_text(2, "TaxAmount"@, bt111.dec(), tc@) + c_text(1, "TaxTotal"@),
        _ => Seq::empty(),
    }
}

/// The text of the tax totals: the total in the invoice currency with its
/// breakdown (nothing where there is neither), then the accounting total.
#[verifier::opaque]
pub open spec fn tax_total_text(invoice: Invoice, cur: Seq<char>) -> Seq<char> {
    let total = match invoice.totals {
        Some(t) => t.tax_total,
        None => None,
    };
    if total is None && invoice.tax_breakdown@.len() == 0 {
        Seq::empty()
    } else {
        o_text(1, "TaxTotal"@) + match total {
            Some(t) => a_text(2, "TaxAmount"@, t.dec(), cur),
            None => a_text(2, "TaxAmount"@, zero_dec(), cur),
        } + subtotals_text(invoice.tax_breakdown@, cur, invoice.profile) + c_text(1, "TaxTotal"@) + accounting_tax_text(
            invoice,
        )
    }
}

#[verifier::rlimit(40)]
fn write_subtotal(s: &mut String, row: &TaxBreakdown, cur: &str, profile: Profile)
    ensures
        final(s)@ == old(s)@ + subtotal_text(*row, cur@, profile),
{
    let ghost s0 = s@;
    open_x(s, 2, "TaxSubtotal");
    amount_x(s, 3, "TaxableAmount", row.taxable, cur);
    amount_x(s, 3, "TaxAmount", row.tax, cur);
    open_x(s, 3, "TaxCategory");
    leaf_x(s, 4, "ID", row.category.as_str(), None);
    let ghost s1 = s@;
    if let Some(r) = row.rate {
        leaf_x(s, 4, "Percent", r.to_string().as_str(), None);
    }
    let ghost s2 = s@;
    opt_leaf_x(s, 4, "TaxExemptionReason", &row.exemption_reason);
    open_x(s, 4, "TaxScheme");
    leaf_x(s, 5, "ID", wire_scheme(profile, row.system, row.category.as_str()), None);
    close_x(s, 4, "TaxScheme");
    close_x(s, 3, "TaxCategory");
    close_x(s, 2, "TaxSubtotal");
    assert(s@ =~= s0 + subtotal_text(*row, cur@, profile));
}

#[verifier::rlimit(40)]
fn write_accounting_tax(s: &mut String, invoice: &Invoice)
    ensures
        final(s)@ == old(s)@ + accounting_tax_text(*invoice),
{
    let ghost s0 = s@;
    let accounting = match &invoice.totals {
        Some(t) => t.tax_total_accounting,
        None => None,
    };
    if let (Some(tc), Some(bt111)) = (&invoice.tax_currency, accounting) {
        open_x(s, 1, "TaxTotal");
        amount_x(s, 2, "TaxAmount", bt111, tc.as_str());
        close_x(s, 1, "TaxTotal");
    }
    assert(s@ =~= s0 + accounting_tax_text(*invoice));
}

/// The tax total in the invoice currency with its breakdown, then the tax
/// total in accounting currency when there is one.
#[verifier::rlimit(40)]
fn write_tax_total(s: &mut String, invoice: &Invoice, cur: &str)
    ensures
        final(s)@ == old(s)@ + tax_total_text(*invoice, cur@),
        grows(old(s)@, final(s)@),
{
    let ghost s0 = s@;
    proof {
        reveal(tax_total_text);
    }
    let total = invoice.tax_total();
    if total.is_none() && invoice.tax_breakdown.len() == 0 {
        assert(s@ =~= s0 + tax_total_text(*invoice, cur@));
        return;
    }
    open_x(s, 1, "TaxTotal");
    let t = match total {
        Some(t) => t,
        None => InvoiceAmount::zero(),
    };
    amount_x(s, 2, "TaxAmount", t, cur);
    let ghost start = s@;
    let ghost rows = invoice.tax_breakdown@;
    let mut i: usize = 0;
    assert(rows.take(0) =~= Seq::<TaxBreakdown>::empty());
    assert(start =~= start + Seq::<char>::empty());
    while i < invoice.tax_breakdown.len()
        invariant
            i <= invoice.tax_breakdown.len(),
            rows == invoice.tax_breakdown@,
            s@ == start + subtotals_text(rows.take(i as int), cur@, invoice.profile),
        decreases invoice.tax_breakdown.len() - i,
    {
        write_subtotal(s, &invoice.tax_breakdown[i], cur, invoice.profile);
        proof {
            assert(rows.take(i + 1).drop_last() =~= rows.take(i as int));
            lemma_app(start, subtotals_text(rows.take(i as int), cur@, invoice.profile), subtotal_text(rows[i as int], cur@, invoice.profile));
        }
        i = i + 1;
    }
    assert(rows.take(rows.len() as int) =~= rows);
    close_x(s, 1, "TaxTotal");
    write_accounting_tax(s, invoice);
    proof {
        crate::dec::lemma_zero_dec();
        if total is None {
            crate::dec::lemma_dec_eq(t.dec(), zero_dec());
        }
        assert(t.dec() == (match total {
            Some(t) => t.dec(),
            None => zero_dec(),
        }));
        assert(s@ =~= s0 + tax_total_text(*invoice, cur@));
        lemma_grows_by(s0, tax_total_text(*invoice, cur@));
    }
}

/// The text of the document totals in schema order; nothing where there are none.
#[verifier::opaque]
pub open spec fn totals_text(invoice: Invoice, cur: Seq<char>) -> Seq<char> {
    match invoice.totals {
        Some(t) => o_text(1, "LegalMonetaryTotal"@) + opt_amount_text(2, "LineExtensionAmount"@, t.line_net, cur)
            + opt_amount_text(2, "TaxExclusiveAmount"@, t.without_tax, cur) + opt_amount_text(2, "TaxInclusiveAmount"@, t.with_tax, cur)
            + opt_amount_text(2, "AllowanceTotalAmount"@, t.allowance_total, cur) + opt_amount_text(2, "ChargeTotalAmount"@, t.charge_total, cur)
            + opt_amount_text(2, "PrepaidAmount"@, t.paid, cur) + opt_amount_text(2, "PayableRoundingAmount"@, t.rounding, cur)
            + opt_amount_text(2, "PayableAmount"@, t.payable, cur) + c_text(1, "LegalMonetaryTotal"@),
        None => Seq::empty(),
    }
}

/// The document totals in schema order; nothing when there are none.
#[verifier::rlimit(40)]
fn write_totals(s: &mut String, invoice: &Invoice, cur: &str)
    ensures
        final(s)@ == old(s)@ + totals_text(*invoice, cur@),
        grows(old(s)@, final(s)@),
{
    let ghost s0 = s@;
    proof {
        reveal(totals_text);
    }
    let t = match &invoice.totals {
        Some(t) => t,
        None => {
            assert(s@ =~= s0 + totals_text(*invoice, cur@));
            return;
        },
    };
    open_x(s, 1, "LegalMonetaryTotal");
    opt_amount_x(s, 2, "LineExtensionAmount", t.line_net, cur);
    opt_amount_x(s, 2, "TaxExclusiveAmount", t.without_tax, cur);
    opt_amount_x(s, 2, "TaxInclusiveAmount", t.with_tax, cur);
    opt_amount_x(s, 2, "AllowanceTotalAmount", t.allowance_total, cur);
    opt_amount_x(s, 2, "ChargeTotalAmount", t.charge_total, cur);
    opt_amount_x(s, 2, "PrepaidAmount", t.paid, cur);
    opt_amount_x(s, 2, "PayableRoundingAmount", t.rounding, cur);
    opt_amount_x(s, 2, "PayableAmount", t.payable, cur);
    close_x(s, 1, "LegalMonetaryTotal");
    proof {
        assert(s@ =~= s0 + totals_text(*invoice, cur@));
        lemma_grows_by(s0, totals_text(*invoice, cur@));
    }
}

/// The text of a line allowance or charge.
#[verifier::opaque]
pub open spec fn line_ac_text(a: LineAllowanceCharge, charge: bool, cur: Seq<char>) -> Seq<char> {
    o_text(2, "AllowanceCharge"@) + l_text(3, "ChargeIndicator"@, if charge { "true"@ } else { "false"@ }, None)
        + match a.reason_code {
        Some(c) => l_text(3, "AllowanceChargeReasonCode"@, c@, None),
        None => Seq::empty(),
    } + opt_leaf(3, "AllowanceChargeReason"@, opt_text(a.reason)) + match a.percent {
        Some(p) => l_text(3, "MultiplierFactorNumeric"@, normal_text(p.dec()), None),
        None => Seq::empty(),
    } + a_text(3, "Amount"@, a.amount.dec(), cur) + opt_amount_text(3, "BaseAmount"@, a.base, cur) + c_text(
        2,
        "AllowanceCharge"@,
    )
}

/// A line allowance or charge.
#[verifier::rlimit(40)]
fn write_line_ac(s: &mut String, a: &LineAllowanceCharge, charge: bool, cur: &str)
    ensures
        final(s)@ == old(s)@ + line_ac_text(*a, charge, cur@),
        grows(old(s)@, final(s)@),
{
    let ghost s0 = s@;
    open_x(s, 2, "AllowanceCharge");
    leaf_x(s, 3, "ChargeIndicator", if charge { "true" } else { "false" }, None);
    let ghost s1 = s@;
    if let Some(c) = &a.reason_code {
        leaf_x(s, 3, "AllowanceChargeReasonCode", c.as_str(), None);
    }
    let ghost s2 = s@;
    opt_leaf_x(s, 3, "AllowanceChargeReason", &a.reason);
    let ghost s3 = s@;
    if let Some(p) = a.percent {
        leaf_x(s, 3, "MultiplierFactorNumeric", p.to_string().as_str(), None);
    }
    let ghost s4 = s@;
    amount_x(s, 3, "Amount", a.amount, cur);
    opt_amount_x(s, 3, "BaseAmount", a.base, cur);
    close_x(s, 2, "AllowanceCharge");
    proof {
        reveal(line_ac_text);
        assert(s@ =~= s0 + line_ac_text(*a, charge, cur@));
        lemma_grows_by(s0, line_ac_text(*a, charge, cur@));
    }
}

/// Line allowances or charges, in order.
pub open spec fn line_acs_text(acs: Seq<LineAllowanceCharge>, charge: bool, cur: Seq<char>) -> Seq<char>
    decreases acs.len(),
{
    if acs.len() == 0 {
        Seq::empty()
    } else {
        line_acs_text(acs.drop_last(), charge, cur) + line_ac_text(acs.last(), charge, cur)
    }
}

/// The first part of a line head: id, note, quantity, net amount and
/// accounting cost.
pub open spec fn line_head_a(line: Line, qty_tag: Seq<char>, cur: Seq<char>) -> Seq<char> {
    l_text(2, "ID"@, line.id@, None) + opt_leaf(2, "Note"@, opt_text(line.note)) + match line.quantity {
        Some(q) => l_text(
            2,
            qty_tag,
            decimal_text(q.dec()),
            match line.unit {
                Some(c) => Some(("unitCode"@, c@)),
                None => None,
            },
        ),
        None => Seq::empty(),
    } + a_text(2, "LineExtensionAmount"@, line.net.dec(), cur) + opt_leaf(2, "AccountingCost"@, opt_text(line.accounting_reference))
}

/// The second part of a line head: period, order line and invoiced object.
pub open spec fn line_head_b(line: Line) -> Seq<char> {
    (match line.period {
        Some(p) => o_text(2, "InvoicePeriod"@) + opt_date_text(3, "StartDate"@, p.start) + opt_date_text(3, "EndDate"@, p.end)
            + c_text(2, "InvoicePeriod"@),
        None => Seq::empty(),
    }) + match line.order_line {
        Some(ol) => o_text(2, "OrderLineReference"@) + l_text(3, "LineID"@, ol@, None) + c_text(2, "OrderLineReference"@),
        None => Seq::empty(),
    } + match line.invoiced_object {
        Some(obj) => o_text(2, "DocumentReference"@) + l_text(3, "ID"@, obj.value@, None) + l_text(
            3,
            "DocumentTypeCode"@,
            match line.invoiced_object_code {
                Some(c) => c@,
                None => "130"@,
            },
            None,
        ) + c_text(2, "DocumentReference"@),
        None => Seq::empty(),
    }
}

/// The text of a line head: identification and amounts, references, line
/// allowances then charges, and the line tax total.
#[verifier::opaque]
pub open spec fn line_head_text(line: Line, qty_tag: Seq<char>, cur: Seq<char>) -> Seq<char> {
    line_head_a(line, qty_tag, cur) + line_head_b(line) + line_acs_text(line.allowances@, false, cur) + line_acs_text(
        line.charges@,
        true,
        cur,
    ) + match line.tax_total {
        Some(tt) => o_text(2, "TaxTotal"@) + a_text(3, "TaxAmount"@, tt.dec(), cur) + c_text(2, "TaxTotal"@),
        None => Seq::empty(),
    }
}

#[verifier::rlimit(40)]
fn write_line_head_a(s: &mut String, line: &Line, qty_tag: &str, cur: &str)
    ensures
        final(s)@ == old(s)@ + line_head_a(*line, qty_tag@, cur@),
{
    let ghost s0 = s@;
    leaf_x(s, 2, "ID", line.id.as_str(), None);
    opt_leaf_x(s, 2, "Note", &line.note);
    let ghost s1 = s@;
    if let Some(q) = line.quantity {
        let unit = match &line.unit {
            Some(c) => Some(("unitCode", c.as_str())),
            None => None,
        };
        leaf_x(s, 2, qty_tag, q.to_string().as_str(), unit);
    }
    let ghost s2 = s@;
    amount_x(s, 2, "LineExtensionAmount", line.net, cur);
    opt_leaf_x(s, 2, "AccountingCost", &line.accounting_reference);
    assert(s@ =~= s0 + line_head_a(*line, qty_tag@, cur@));
}

#[verifier::rlimit(40)]
fn write_line_head_b(s: &mut String, line: &Line)
    ensures
        final(s)@ == old(s)@ + line_head_b(*line),
{
    let ghost s0 = s@;
    if let Some(p) = &line.period {
        open_x(s, 2, "InvoicePeriod");
        opt_date_x(s, 3, "StartDate", p.start);
        opt_date_x(s, 3, "EndDate", p.end);
        close_x(s, 2, "InvoicePeriod");
    }
    let ghost s1 = s@;
    if let Some(ol) = &line.order_line {
        open_x(s, 2, "OrderLineReference");
        leaf_x(s, 3, "LineID", ol.as_str(), None);
        close_x(s, 2, "OrderLineReference");
    }
    let ghost s2 = s@;
    if let Some(obj) = &line.invoiced_object {
        open_x(s, 2, "DocumentReference");
        leaf_x(s, 3, "ID", obj.value.as_str(), None);
        let code = match &line.invoiced_object_code {
            Some(c) => c.as_str(),
            None => "130",
        };
        leaf_x(s, 3, "DocumentTypeCode", code, None);
        close_x(s, 2, "DocumentReference");
    }
    assert(s@ =~= s0 + line_head_b(*line));
}

fn write_line_acs(s: &mut String, acs: &Vec<LineAllowanceCharge>, charge: bool, cur: &str)
    ensures
        final(s)@ == old(s)@ + line_acs_text(acs@, charge, cur@),
{
    let ghost start = s@;
    let mut i: usize = 0;
    assert(acs@.take(0) =~= Seq::<LineAllowanceCharge>::empty());
    assert(start =~= start + Seq::<char>::empty());
    while i < acs.len()
        invariant
            i <= acs.len(),
            s@ == start + line_acs_text(acs@.take(i as int), charge, cur@),
        decreases acs.len() - i,
    {
        write_line_ac(s, &acs[i], charge, cur);
        proof {
            assert(acs@.take(i + 1).drop_last() =~= acs@.take(i as int));
            lemma_app(start, line_acs_text(acs@.take(i as int), charge, cur@), line_ac_text(acs@[i as int], charge, cur@));
        }
        i = i + 1;
    }
    assert(acs@.take(acs.len() as int) =~= acs@);
}

/// The head of an invoice line: identification and amounts, references, line
/// allowances then charges, and the line tax total.
#[verifier::rlimit(40)]
fn write_line_head(s: &mut String, line: &Line, qty_tag: &str, cur: &str)
    ensures
        final(s)@ == old(s)@ + line_head_text(*line, qty_tag@, cur@),
        grows(old(s)@, final(s)@),
{
    let ghost s0 = s@;
    write_line_head_a(s, line, qty_tag, cur);
    write_line_head_b(s, line);
    write_line_acs(s, &line.allowances, false, cur);
    write_line_acs(s, &line.charges, true, cur);
    let ghost s1 = s@;
    if let Some(tt) = line.tax_total {
        open_x(s, 2, "TaxTotal");
        amount_x(s, 3, "TaxAmount", tt, cur);
        close_x(s, 2, "TaxTotal");
    }
    proof {
        reveal(line_head_text);
        assert(s@ =~= s0 + line_head_text(*line, qty_tag@, cur@));
        lemma_grows_by(s0, line_head_text(*line, qty_tag@, cur@));
    }
}

/// An item identification element, where there is an identifier.
pub open spec fn item_id_text(tag: Seq<char>, id: Option<Identifier>) -> Seq<char> {
    match id {
        Some(i) => o_text(3, tag) + l_text(4, "ID"@, i.value@, scheme_attr(i)) + c_text(3, tag),
        None => Seq::empty(),
    }
}

/// An identification element with its `schemeID`.
#[verifier::rlimit(40)]
fn write_item_id(s: &mut String, tag: &str, id: &Option<Identifier>)
    ensures
        final(s)@ == old(s)@ + item_id_text(tag@, *id),
        grows(old(s)@, final(s)@),
{
    let ghost s0 = s@;
    if let Some(id) = id {
        open_x(s, 3, tag);
        leaf_x(s, 4, "ID", id.value.as_str(), scheme_id("schemeID", id));
        close_x(s, 3, tag);
    }
    assert(s@ =~= s0 + item_id_text(tag@, *id));
    proof {
        lemma_grows_by(s0, item_id_text(tag@, *id));
    }
}

/// The commodity classifications, in order, each with its `listID`.
pub open spec fn classifications_text(cs: Seq<Identifier>) -> Seq<char>
    decreases cs.len(),
{
    if cs.len() == 0 {
        Seq::empty()
    } else {
        classifications_text(cs.drop_last()) + o_text(3, "CommodityClassification"@) + l_text(
            4,
            "ItemClassificationCode"@,
            cs.last().value@,
            match cs.last().scheme {
                Some(sc) => Some(("listID"@, sc@)),
                None => None,
            },
        ) + c_text(3, "CommodityClassification"@)
    }
}

/// The additional item properties, in order.
pub open spec fn attributes_text(attrs: Seq<ItemAttribute>) -> Seq<char>
    decreases attrs.len(),
{
    if attrs.len() == 0 {
        Seq::empty()
    } else {
        attributes_text(attrs.drop_last()) + o_text(3, "AdditionalItemProperty"@) + l_text(4, "Name"@, attrs.last().name@, None)
            + l_text(4, "Value"@, attrs.last().value@, None) + c_text(3, "AdditionalItemProperty"@)
    }
}

/// The additional classified tax categories, in order.
pub open spec fn extra_tax_text(ts: Seq<TaxCategory>, profile: Profile) -> Seq<char>
    decreases ts.len(),
{
    if ts.len() == 0 {
        Seq::empty()
    } else {
        extra_tax_text(ts.drop_last(), profile) + tax_category_text(3, "ClassifiedTaxCategory"@, ts.last(), profile)
    }
}

/// The first part of an item: description, name, identifications, origin.
pub open spec fn item_head_text(line: Line) -> Seq<char> {
    opt_leaf(3, "Description"@, opt_text(line.description)) + l_text(3, "Name"@, line.name@, None) + item_id_text(
        "SellersItemIdentification"@,
        line.item_id,
    ) + item_id_text("BuyersItemIdentification"@, line.buyer_id) + item_id_text(
        "StandardItemIdentification"@,
        line.standard_id,
    ) + match line.origin_country {
        Some(c) => o_text(3, "OriginCountry"@) + l_text(4, "IdentificationCode"@, c@, None) + c_text(3, "OriginCountry"@),
        None => Seq::empty(),
    }
}

/// The text of the item: description, name, identifications, origin,
/// classifications, attributes, the line's tax category where its code is
/// not blank, and the additional tax categories.
#[verifier::opaque]
pub open spec fn item_text(line: Line, profile: Profile) -> Seq<char> {
    o_text(2, "Item"@) + item_head_text(line) + classifications_text(line.classifications@) + attributes_text(
        line.attributes@,
    ) + when(!blank(line.tax.code@), tax_category_text(3, "ClassifiedTaxCategory"@, line.tax, profile)) + extra_tax_text(
        line.extra_tax@,
        profile,
    ) + c_text(2, "Item"@)
}

#[verifier::rlimit(40)]
fn write_item_head(s: &mut String, line: &Line)
    ensures
        final(s)@ == old(s)@ + item_head_text(*line),
{
    let ghost s0 = s@;
    opt_leaf_x(s, 3, "Description", &line.description);
    leaf_x(s, 3, "Name", line.name.as_str(), None);
    write_item_id(s, "SellersItemIdentification", &line.item_id);
    write_item_id(s, "BuyersItemIdentification", &line.buyer_id);
    write_item_id(s, "StandardItemIdentification", &line.standard_id);
    let ghost s1 = s@;
    if let Some(c) = &line.origin_country {
        open_x(s, 3, "OriginCountry");
        leaf_x(s, 4, "IdentificationCode", c.as_str(), None);
        close_x(s, 3, "OriginCountry");
    }
    assert(s@ =~= s0 + item_head_text(*line));
}

fn write_classifications(s: &mut String, cs: &Vec<Identifier>)
    ensures
        final(s)@ == old(s)@ + classifications_text(cs@),
{
    let ghost start = s@;
    let mut i: usize = 0;
    assert(cs@.take(0) =~= Seq::<Identifier>::empty());
    assert(start =~= start + Seq::<char>::empty());
    while i < cs.len()
        invariant
            i <= cs.len(),
            s@ == start + classifications_text(cs@.take(i as int)),
        decreases cs.len() - i,
    {
        let cl = &cs[i];
        open_x(s, 3, "CommodityClassification");
        leaf_x(s, 4, "ItemClassificationCode", cl.value.as_str(), scheme_id("listID", cl));
        close_x(s, 3, "CommodityClassification");
        proof {
            assert(cs@.take(i + 1).drop_last() =~= cs@.take(i as int));
            assert(s@ =~= start + classifications_text(cs@.take(i + 1)));
        }
        i = i + 1;
    }
    assert(cs@.take(cs.len() as int) =~= cs@);
}

fn write_attributes(s: &mut String, attrs: &Vec<ItemAttribute>)
    ensures
        final(s)@ == old(s)@ + attributes_text(attrs@),
{
    let ghost start = s@;
    let mut j: usize = 0;
    assert(attrs@.take(0) =~= Seq::<ItemAttribute>::empty());
    assert(start =~= start + Seq::<char>::empty());
    while j < attrs.len()
        invariant
            j <= attrs.len(),
            s@ == start + attributes_text(attrs@.take(j as int)),
        decreases attrs.len() - j,
    {
        let attr = &attrs[j];
        open_x(s, 3, "AdditionalItemProperty");
        leaf_x(s, 4, "Name", attr.name.as_str(), None);
        leaf_x(s, 4, "Value", attr.value.as_str(), None);
        close_x(s, 3, "AdditionalItemProperty");
        proof {
            assert(attrs@.take(j + 1).drop_last() =~= attrs@.take(j as int));
            assert(s@ =~= start + attributes_text(attrs@.take(j + 1)));
        }
        j = j + 1;
    }
    assert(attrs@.take(attrs.len() as int) =~= attrs@);
}

fn write_extra_tax(s: &mut String, ts: &Vec<TaxCategory>, profile: Profile)
    ensures
        final(s)@ == old(s)@ + extra_tax_text(ts@, profile),
{
    let ghost start = s@;
    let mut k: usize = 0;
    assert(ts@.take(0) =~= Seq::<TaxCategory>::empty());
    assert(start =~= start + Seq::<char>::empty());
    while k < ts.len()
        invariant
            k <= ts.len(),
            s@ == start + extra_tax_text(ts@.take(k as int), profile),
        decreases ts.len() - k,
    {
        write_tax_category(s, 3, "ClassifiedTaxCategory", &ts[k], profile);
        proof {
            assert(ts@.take(k + 1).drop_last() =~= ts@.take(k as int));
            lemma_app(start, extra_tax_text(ts@.take(k as int), profile), tax_category_text(3, "ClassifiedTaxCategory"@, ts@[k as int], profile));
        }
        k = k + 1;
    }
    assert(ts@.take(ts.len() as int) =~= ts@);
}

/// The item: description, name, identifications, origin, classifications,
/// attributes and tax categories.
#[verifier::rlimit(40)]
fn write_item(s: &mut String, line: &Line, profile: Profile)
    ensures
        final(s)@ == old(s)@ + item_text(*line, profile),
        grows(old(s)@, final(s)@),
{
    let ghost s0 = s@;
    open_x(s, 2, "Item");
    write_item_head(s, line);
    write_classifications(s, &line.classifications);
    write_attributes(s, &line.attributes);
    let ghost s1 = s@;
    if !is_blank(line.tax.code.as_str()) {
        write_tax_category(s, 3, "ClassifiedTaxCategory", &line.tax, profile);
    }
    assert(s@ =~= s1 + when(!blank(line.tax.code@), tax_category_text(3, "ClassifiedTaxCategory"@, line.tax, profile)));
    write_extra_tax(s, &line.extra_tax, profile);
    close_x(s, 2, "Item");
    proof {
        reveal(item_text);
        assert(s@ =~= s0 + item_text(*line, profile));
        lemma_grows_by(s0, item_text(*line, profile));
    }
}

/// The base quantity part of a price.
pub open spec fn price_base_text(price: Price) -> Seq<char> {
    match price.base_qty {
        Some(q) => l_text(
            3,
            "BaseQuantity"@,
            decimal_text(q.dec()),
            match price.base_unit {
                Some(c) => Some(("unitCode"@, c@)),
                None => None,
            },
        ),
        None => Seq::empty(),
    }
}

/// The gross price and discount part of a price.
pub open spec fn price_ac_text(price: Price, cur: Seq<char>) -> Seq<char> {
    when(
        price.discount is Some || price.gross is Some,
        o_text(3, "AllowanceCharge"@) + l_text(4, "ChargeIndicator"@, "false"@, None) + match price.discount {
            Some(d) => a_text(4, "Amount"@, d.dec(), cur),
            None => Seq::empty(),
        } + match price.gross {
            Some(g) => a_text(4, "BaseAmount"@, g.dec(), cur),
            None => Seq::empty(),
        } + c_text(3, "AllowanceCharge"@),
    )
}

/// The text of a line's price; nothing where it has none.
#[verifier::opaque]
pub open spec fn price_text(line: Line, cur: Seq<char>) -> Seq<char> {
    match line.price {
        Some(price) => o_text(2, "Price"@) + a_text(3, "PriceAmount"@, price.net.dec(), cur) + price_base_text(price)
            + price_ac_text(price, cur) + c_text(2, "Price"@),
        None => Seq::empty(),
    }
}

/// A line's price: net amount, base quantity, and gross price with discount.
#[verifier::rlimit(40)]
fn write_price(s: &mut String, line: &Line, cur: &str)
    ensures
        final(s)@ == old(s)@ + price_text(*line, cur@),
        grows(old(s)@, final(s)@),
{
    let ghost s0 = s@;
    proof {
        reveal(price_text);
    }
    if let Some(price) = &line.price {
        open_x(s, 2, "Price");
        amount_unit_x(s, 3, "PriceAmount", price.net, cur);
        let ghost s1 = s@;
        if let Some(q) = price.base_qty {
            let unit = match &price.base_unit {
                Some(c) => Some(("unitCode", c.as_str())),
                None => None,
            };
            leaf_x(s, 3, "BaseQuantity", q.to_string().as_str(), unit);
        }
        assert(s@ =~= s1 + price_base_text(*price));
        let ghost s2 = s@;
        if price.discount.is_some() || price.gross.is_some() {
            open_x(s, 3, "AllowanceCharge");
            leaf_x(s, 4, "ChargeIndicator", "false", None);
            let ghost s3 = s@;
            if let Some(d) = price.discount {
                amount_unit_x(s, 4, "Amount", d, cur);
            }
            let ghost s4 = s@;
            if let Some(g) = price.gross {
                amount_unit_x(s, 4, "BaseAmount", g, cur);
            }
            let ghost s5 = s@;
            close_x(s, 3, "AllowanceCharge");
        }
        assert(s@ =~= s2 + price_ac_text(*price, cur@));
        close_x(s, 2, "Price");
    }
    proof {
        assert(s@ =~= s0 + price_text(*line, cur@));
        lemma_grows_by(s0, price_text(*line, cur@));
    }
}

/// The text of an invoice or credit note line.
#[verifier::opaque]
pub open spec fn line_text(line: Line, profile: Profile, line_tag: Seq<char>, qty_tag: Seq<char>, cur: Seq<char>) -> Seq<char> {
    o_text(1, line_tag) + line_head_text(line, qty_tag, cur) + item_text(line, profile) + price_text(line, cur) + c_text(1, line_tag)
}

/// An invoice or credit note line.
#[verifier::rlimit(40)]
fn write_line(s: &mut String, line: &Line, profile: Profile, line_tag: &str, qty_tag: &str, cur: &str)
    ensures
        final(s)@ == old(s)@ + line_text(*line, profile, line_tag@, qty_tag@, cur@),
        grows(old(s)@, final(s)@),
{
    let ghost s0 = s@;
    open_x(s, 1, line_tag);
    write_line_head(s, line, qty_tag, cur);
    write_item(s, line, profile);
    write_price(s, line, cur);
    close_x(s, 1, line_tag);
    proof {
        reveal(line_text);
        assert(s@ =~= s0 + line_text(*line, profile, line_tag@, qty_tag@, cur@));
        lemma_grows_by(s0, line_text(*line, profile, line_tag@, qty_tag@, cur@));
    }
}


/// The XML declaration and the document element of a written UBL document.
pub open spec fn ubl_head(credit: bool) -> Seq<char> {
    let root = if credit { "CreditNote"@ } else { "Invoice"@ };
    let ns = if credit { NS_CN@ } else { NS_INV@ };
    "<?xml version=\"1.0\" encoding=\"UTF-8\"?>\n<"@ + root + " xmlns=\""@ + ns + "\" xmlns:cac=\""@ + NS_CAC@
        + "\" xmlns:cbc=\""@ + NS_CBC@ + "\">\n"@
}

/// The closing tag of the document element.
pub open spec fn ubl_tail(credit: bool) -> Seq<char> {
    "</"@ + (if credit { "CreditNote"@ } else { "Invoice"@ }) + ">\n"@
}

/// The specification identifier written as BT-24: the invoice's own, else
/// the profile's.
pub open spec fn written_spec_id(invoice: Invoice) -> Seq<char> {
    match invoice.specification_id {
        Some(id) => id@,
        None => crate::profile::profile_spec_id(invoice.profile),
    }
}

/// A written UBL document of the invoice: the XML declaration, the
/// document element (CreditNote for a credit note) and BT-24 (the invoice's
/// own, else the profile's) open it, the closing tag of the document
/// element ends it.
pub open spec fn ubl_shaped(invoice: Invoice, t: Seq<char>) -> bool {
    let credit = invoice.kind == DocumentKind::CreditNote;
    let head = ubl_head(credit) + crate::formats::xml_out::leaf_text(
        1,
        "cbc"@,
        "CustomizationID"@,
        Seq::empty(),
        written_spec_id(invoice),
    );
    let tail = ubl_tail(credit);
    &&& grows(head, t)
    &&& t.len() >= head.len() + tail.len()
    &&& t.subrange(t.len() - tail.len(), t.len() as int) == tail
}

/// Notes, with the subject code as `#code#text`.
/// The written text of a note: `#subject#text` where it has a subject.
pub open spec fn note_value(note: InvoiceNote) -> Seq<char> {
    match note.subject {
        Some(c) => "#"@ + c@ + "#"@ + note.text@,
        None => note.text@,
    }
}

/// The note elements, in order.
pub open spec fn notes_text(notes: Seq<InvoiceNote>) -> Seq<char>
    decreases notes.len(),
{
    if notes.len() == 0 {
        Seq::empty()
    } else {
        notes_text(notes.drop_last()) + l_text(1, "Note"@, note_value(notes.last()), None)
    }
}

/// The invoice notes, each as a `Note` with its subject code in hashes.
fn write_notes(s: &mut String, invoice: &Invoice)
    ensures
        final(s)@ == old(s)@ + notes_text(invoice.notes@),
        grows(old(s)@, final(s)@),
{
    let ghost start = s@;
    let mut i: usize = 0;
    assert(invoice.notes@.take(0) =~= Seq::<InvoiceNote>::empty());
    assert(start =~= start + Seq::<char>::empty());
    while i < invoice.notes.len()
        invariant
            i <= invoice.notes.len(),
            s@ == start + notes_text(invoice.notes@.take(i as int)),
        decreases invoice.notes.len() - i,
    {
        let ghost before = s@;
        let note = &invoice.notes[i];
        let text = match &note.subject {
            Some(c) => {
                let mut t = owned("#");
                t.append(c.as_str());
                t.append("#");
                t.append(note.text.as_str());
                t
            },
            None => owned(note.text.as_str()),
        };
        assert(text@ =~= note_value(*note));
        leaf_x(s, 1, "Note", text.as_str(), None);
        proof {
            let ns = invoice.notes@;
            assert(ns.take(i + 1).drop_last() =~= ns.take(i as int));
            lemma_app(start, notes_text(ns.take(i as int)), l_text(1, "Note"@, note_value(ns[i as int]), None));
        }
        i = i + 1;
    }
    proof {
        assert(invoice.notes@.take(invoice.notes.len() as int) =~= invoice.notes@);
        lemma_grows_by(start, notes_text(invoice.notes@));
    }
}

/// Header terms after BT-24: process, number, dates, type code, notes,
/// currencies, buyer accounting and reference, period.
/// The header elements before the notes.
pub open spec fn header_head_text(invoice: Invoice, credit: bool, type_tag: Seq<char>) -> Seq<char> {
    (match profile_process_id(invoice.profile) {
        Some(id) => l_text(1, "ProfileID"@, id@, None),
        None => Seq::empty(),
    }) + l_text(1, "ID"@, invoice.number@, None) + opt_date_text(1, "IssueDate"@, invoice.issue_date) + when(
        !credit,
        opt_date_text(1, "DueDate"@, invoice.due_date),
    ) + when(credit, opt_date_text(1, "TaxPointDate"@, invoice.tax_point_date)) + opt_code_leaf(1, type_tag, invoice.type_code)
}

/// The header elements after the notes.
pub open spec fn header_tail_text(invoice: Invoice, credit: bool, cur: Seq<char>) -> Seq<char> {
    when(!credit, opt_date_text(1, "TaxPointDate"@, invoice.tax_point_date)) + when(
        invoice.currency@.len() > 0,
        l_text(1, "DocumentCurrencyCode"@, cur, None),
    ) + opt_code_leaf(1, "TaxCurrencyCode"@, invoice.tax_currency) + opt_leaf(
        1,
        "AccountingCost"@,
        opt_text(invoice.buyer_accounting),
    ) + opt_ref_leaf(1, "BuyerReference"@, invoice.buyer_reference) + invoice_period_text(invoice)
}

/// The text of the document header: process, number, dates, type code,
/// notes, currencies, references and the invoicing period.
#[verifier::opaque]
pub open spec fn header_text(invoice: Invoice, credit: bool, type_tag: Seq<char>, cur: Seq<char>) -> Seq<char> {
    header_head_text(invoice, credit, type_tag) + notes_text(invoice.notes@) + header_tail_text(invoice, credit, cur)
}

#[verifier::rlimit(40)]
fn write_header_head(s: &mut String, invoice: &Invoice, credit: bool, type_tag: &str)
    ensures
        final(s)@ == old(s)@ + header_head_text(*invoice, credit, type_tag@),
{
    let ghost s0 = s@;
    if let Some(id) = invoice.profile.process_id() {
        leaf_x(s, 1, "ProfileID", id, None);
    }
    let ghost s1 = s@;
    leaf_x(s, 1, "ID", invoice.number.as_str(), None);
    opt_date_x(s, 1, "IssueDate", invoice.issue_date);
    let ghost s2 = s@;
    if !credit {
        opt_date_x(s, 1, "DueDate", invoice.due_date);
    }
    let ghost s3 = s@;
    if credit {
        opt_date_x(s, 1, "TaxPointDate", invoice.tax_point_date);
    }
    let ghost s4 = s@;
    opt_code_x(s, 1, type_tag, &invoice.type_code);
    assert(s@ =~= s0 + header_head_text(*invoice, credit, type_tag@));
}

#[verifier::rlimit(40)]
fn write_header_tail(s: &mut String, invoice: &Invoice, credit: bool, cur: &str)
    ensures
        final(s)@ == old(s)@ + header_tail_text(*invoice, credit, cur@),
{
    let ghost s0 = s@;
    if !credit {
        opt_date_x(s, 1, "TaxPointDate", invoice.tax_point_date);
    }
    let ghost s1 = s@;
    if has_chars(invoice.currency.as_str()) {
        leaf_x(s, 1, "DocumentCurrencyCode", cur, None);
    }
    let ghost s2 = s@;
    opt_code_x(s, 1, "TaxCurrencyCode", &invoice.tax_currency);
    opt_leaf_x(s, 1, "AccountingCost", &invoice.buyer_accounting);
    opt_ref_x(s, 1, "BuyerReference", &invoice.buyer_reference);
    write_invoice_period(s, invoice);
    assert(s@ =~= s0 + header_tail_text(*invoice, credit, cur@));
}

/// The document header: process, number, dates, type code, notes,
/// currencies, references and the invoicing period.
#[verifier::rlimit(40)]
fn write_header(s: &mut String, invoice: &Invoice, credit: bool, type_tag: &str, cur: &str)
    ensures
        final(s)@ == old(s)@ + header_text(*invoice, credit, type_tag@, cur@),
        grows(old(s)@, final(s)@),
{
    let ghost s0 = s@;
    write_header_head(s, invoice, credit, type_tag);
    write_notes(s, invoice);
    write_header_tail(s, invoice, credit, cur);
    proof {
        reveal(header_text);
        assert(s@ =~= s0 + header_text(*invoice, credit, type_tag@, cur@));
        lemma_grows_by(s0, header_text(*invoice, credit, type_tag@, cur@));
    }
}

/// Order, preceding invoices, document references, invoiced object,
/// supporting documents and project.
/// The order reference part of the references.
pub open spec fn order_ref_text(invoice: Invoice) -> Seq<char> {
    when(
        invoice.purchase_order is Some || invoice.sales_order is Some,
        o_text(1, "OrderReference"@) + opt_ref_leaf(2, "ID"@, invoice.purchase_order) + opt_ref_leaf(
            2,
            "SalesOrderID"@,
            invoice.sales_order,
        ) + c_text(1, "OrderReference"@),
    )
}

/// The preceding invoice references, in order.
pub open spec fn preceding_text(ps: Seq<PrecedingInvoice>) -> Seq<char>
    decreases ps.len(),
{
    if ps.len() == 0 {
        Seq::empty()
    } else {
        preceding_text(ps.drop_last()) + o_text(1, "BillingReference"@) + o_text(2, "InvoiceDocumentReference"@) + l_text(
            3,
            "ID"@,
            ps.last().reference.0@,
            None,
        ) + opt_date_text(3, "IssueDate"@, ps.last().issue_date) + c_text(2, "InvoiceDocumentReference"@) + c_text(
            1,
            "BillingReference"@,
        )
    }
}

/// The supporting documents, in order.
pub open spec fn supporting_all_text(ds: Seq<SupportingDocument>) -> Seq<char>
    decreases ds.len(),
{
    if ds.len() == 0 {
        Seq::empty()
    } else {
        supporting_all_text(ds.drop_last()) + supporting_text(ds.last())
    }
}

/// The document references after the preceding invoices and before the
/// supporting documents.
pub open spec fn doc_refs_text(invoice: Invoice) -> Seq<char> {
    id_ref_text("DespatchDocumentReference"@, invoice.despatch) + id_ref_text(
        "ReceiptDocumentReference"@,
        invoice.receiving_advice,
    ) + id_ref_text("OriginatorDocumentReference"@, invoice.tender) + id_ref_text(
        "ContractDocumentReference"@,
        invoice.contract,
    ) + match invoice.invoiced_object {
        Some(obj) => o_text(1, "AdditionalDocumentReference"@) + l_text(2, "ID"@, obj.value@, scheme_attr(obj)) + l_text(
            2,
            "DocumentTypeCode"@,
            "130"@,
            None,
        ) + c_text(1, "AdditionalDocumentReference"@),
        None => Seq::empty(),
    }
}

/// The text of the document references in schema order.
#[verifier::opaque]
pub open spec fn references_text(invoice: Invoice) -> Seq<char> {
    order_ref_text(invoice) + preceding_text(invoice.preceding@) + doc_refs_text(invoice) + supporting_all_text(
        invoice.supporting_documents@,
    ) + id_ref_text("ProjectReference"@, invoice.project)
}

#[verifier::rlimit(40)]
fn write_order_ref(s: &mut String, invoice: &Invoice)
    ensures
        final(s)@ == old(s)@ + order_ref_text(*invoice),
{
    let ghost s0 = s@;
    if invoice.purchase_order.is_some() || invoice.sales_order.is_some() {
        open_x(s, 1, "OrderReference");
        opt_ref_x(s, 2, "ID", &invoice.purchase_order);
        opt_ref_x(s, 2, "SalesOrderID", &invoice.sales_order);
        close_x(s, 1, "OrderReference");
    }
    assert(s@ =~= s0 + order_ref_text(*invoice));
}

fn write_preceding(s: &mut String, invoice: &Invoice)
    ensures
        final(s)@ == old(s)@ + preceding_text(invoice.preceding@),
{
    let ghost start = s@;
    let mut i: usize = 0;
    assert(invoice.preceding@.take(0) =~= Seq::<PrecedingInvoice>::empty());
    assert(start =~= start + Seq::<char>::empty());
    while i < invoice.preceding.len()
        invariant
            i <= invoice.preceding.len(),
            s@ == start + preceding_text(invoice.preceding@.take(i as int)),
        decreases invoice.preceding.len() - i,
    {
        let ghost before = s@;
        let p = &invoice.preceding[i];
        open_x(s, 1, "BillingReference");
        open_x(s, 2, "InvoiceDocumentReference");
        leaf_x(s, 3, "ID", p.reference.as_str(), None);
        opt_date_x(s, 3, "IssueDate", p.issue_date);
        close_x(s, 2, "InvoiceDocumentReference");
        close_x(s, 1, "BillingReference");
        proof {
            let ps = invoice.preceding@;
            assert(ps.take(i + 1).drop_last() =~= ps.take(i as int));
            assert(s@ =~= start + preceding_text(ps.take(i + 1)));
        }
        i = i + 1;
    }
    assert(invoice.preceding@.take(invoice.preceding.len() as int) =~= invoice.preceding@);
}

#[verifier::rlimit(40)]
fn write_doc_refs(s: &mut String, invoice: &Invoice)
    ensures
        final(s)@ == old(s)@ + doc_refs_text(*invoice),
{
    let ghost s0 = s@;
    write_id_ref(s, "DespatchDocumentReference", &invoice.despatch);
    write_id_ref(s, "ReceiptDocumentReference", &invoice.receiving_advice);
    write_id_ref(s, "OriginatorDocumentReference", &invoice.tender);
    write_id_ref(s, "ContractDocumentReference", &invoice.contract);
    let ghost s1 = s@;
    if let Some(obj) = &invoice.invoiced_object {
        open_x(s, 1, "AdditionalDocumentReference");
        leaf_x(s, 2, "ID", obj.value.as_str(), scheme_id("schemeID", obj));
        leaf_x(s, 2, "DocumentTypeCode", "130", None);
        close_x(s, 1, "AdditionalDocumentReference");
    }
    assert(s@ =~= s0 + doc_refs_text(*invoice));
}

fn write_supporting_all(s: &mut String, invoice: &Invoice)
    ensures
        final(s)@ == old(s)@ + supporting_all_text(invoice.supporting_documents@),
{
    let ghost start = s@;
    let mut j: usize = 0;
    assert(invoice.supporting_documents@.take(0) =~= Seq::<SupportingDocument>::empty());
    assert(start =~= start + Seq::<char>::empty());
    while j < invoice.supporting_documents.len()
        invariant
            j <= invoice.supporting_documents.len(),
            s@ == start + supporting_all_text(invoice.supporting_documents@.take(j as int)),
        decreases invoice.supporting_documents.len() - j,
    {
        write_supporting(s, &invoice.supporting_documents[j]);
        proof {
            let ds = invoice.supporting_documents@;
            assert(ds.take(j + 1).drop_last() =~= ds.take(j as int));
            lemma_app(start, supporting_all_text(ds.take(j as int)), supporting_text(ds[j as int]));
        }
        j = j + 1;
    }
    assert(invoice.supporting_documents@.take(invoice.supporting_documents.len() as int) =~= invoice.supporting_documents@);
}

/// Order, billing, despatch, receipt, tender, contract, invoiced object,
/// supporting document and project references.
#[verifier::rlimit(40)]
fn write_references(s: &mut String, invoice: &Invoice)
    ensures
        final(s)@ == old(s)@ + references_text(*invoice),
        grows(old(s)@, final(s)@),
{
    let ghost s0 = s@;
    write_order_ref(s, invoice);
    write_preceding(s, invoice);
    write_doc_refs(s, invoice);
    write_supporting_all(s, invoice);
    write_id_ref(s, "ProjectReference", &invoice.project);
    proof {
        reveal(references_text);
        assert(s@ =~= s0 + references_text(*invoice));
        lemma_grows_by(s0, references_text(*invoice));
    }
}

/// Parties, payee, representative, delivery, payment means and terms.
/// The optional parties and terms after seller and buyer.
pub open spec fn parties_rest_text(invoice: Invoice) -> Seq<char> {
    (match invoice.payee {
        Some(p) => payee_text(p),
        None => Seq::empty(),
    }) + match invoice.tax_representative {
        Some(t) => tax_rep_text(t),
        None => Seq::empty(),
    } + match invoice.delivery {
        Some(d) => delivery_text(d),
        None => Seq::empty(),
    } + match invoice.payment {
        Some(p) => payment_text(p),
        None => Seq::empty(),
    } + match invoice.payment_terms {
        Some(t) => o_text(1, "PaymentTerms"@) + l_text(2, "Note"@, t@, None) + c_text(1, "PaymentTerms"@),
        None => Seq::empty(),
    }
}

/// The text of the parties: seller, buyer, payee, tax representative,
/// delivery, payment means and terms.
#[verifier::opaque]
pub open spec fn parties_text(invoice: Invoice) -> Seq<char> {
    party_text("AccountingSupplierParty"@, invoice.seller, invoice.profile) + party_text(
        "AccountingCustomerParty"@,
        invoice.buyer,
        invoice.profile,
    ) + parties_rest_text(invoice)
}

/// Seller, buyer, payee, tax representative, delivery, payment means and
/// payment terms.
#[verifier::rlimit(40)]
fn write_parties(s: &mut String, invoice: &Invoice)
    ensures
        final(s)@ == old(s)@ + parties_text(*invoice),
        grows(old(s)@, final(s)@),
{
    let ghost s0 = s@;
    write_party(s, "AccountingSupplierParty", &invoice.seller, invoice.profile);
    write_party(s, "AccountingCustomerParty", &invoice.buyer, invoice.profile);
    write_parties_rest(s, invoice);
    proof {
        reveal(parties_text);
        assert(s@ =~= s0 + parties_text(*invoice));
        lemma_grows_by(s0, parties_text(*invoice));
    }
}

#[verifier::rlimit(50)]
fn write_parties_rest(s: &mut String, invoice: &Invoice)
    ensures
        final(s)@ == old(s)@ + parties_rest_text(*invoice),
{
    let ghost s1 = s@;
    if let Some(payee) = &invoice.payee {
        write_payee(s, payee);
    } else {
        assert(s@ =~= s@ + Seq::<char>::empty());
    }
    let ghost s2 = s@;
    if let Some(tr) = &invoice.tax_representative {
        write_tax_rep(s, tr);
    } else {
        assert(s@ =~= s@ + Seq::<char>::empty());
    }
    let ghost s3 = s@;
    if let Some(d) = &invoice.delivery {
        write_delivery(s, d);
    } else {
        assert(s@ =~= s@ + Seq::<char>::empty());
    }
    let ghost s4 = s@;
    if let Some(pay) = &invoice.payment {
        write_payment(s, pay);
    } else {
        assert(s@ =~= s@ + Seq::<char>::empty());
    }
    let ghost s5 = s@;
    if let Some(terms) = &invoice.payment_terms {
        open_x(s, 1, "PaymentTerms");
        leaf_x(s, 2, "Note", terms.as_str(), None);
        close_x(s, 1, "PaymentTerms");
    }
    assert(s@ =~= s1 + parties_rest_text(*invoice));
}

/// Document allowances or charges, in order.
pub open spec fn allowances_text(acs: Seq<AllowanceCharge>, charge: bool, cur: Seq<char>, profile: Profile) -> Seq<char>
    decreases acs.len(),
{
    if acs.len() == 0 {
        Seq::empty()
    } else {
        allowances_text(acs.drop_last(), charge, cur, profile) + allowance_text(acs.last(), charge, cur, profile)
    }
}

/// The lines, in order.
pub open spec fn lines_text(lines: Seq<Line>, profile: Profile, line_tag: Seq<char>, qty_tag: Seq<char>, cur: Seq<char>) -> Seq<char>
    decreases lines.len(),
{
    if lines.len() == 0 {
        Seq::empty()
    } else {
        lines_text(lines.drop_last(), profile, line_tag, qty_tag, cur) + line_text(lines.last(), profile, line_tag, qty_tag, cur)
    }
}

/// The text of the document allowances and charges, tax totals, document
/// totals and lines.
#[verifier::opaque]
pub open spec fn amounts_and_lines_text(invoice: Invoice, line_tag: Seq<char>, qty_tag: Seq<char>, cur: Seq<char>) -> Seq<char> {
    allowances_text(invoice.document_allowances@, false, cur, invoice.profile) + allowances_text(
        invoice.document_charges@,
        true,
        cur,
        invoice.profile,
    ) + tax_total_text(invoice, cur) + totals_text(invoice, cur) + lines_text(invoice.lines@, invoice.profile, line_tag, qty_tag, cur)
}

fn write_allowances(s: &mut String, acs: &Vec<AllowanceCharge>, charge: bool, cur: &str, profile: Profile)
    ensures
        final(s)@ == old(s)@ + allowances_text(acs@, charge, cur@, profile),
{
    let ghost start = s@;
    let mut i: usize = 0;
    assert(acs@.take(0) =~= Seq::<AllowanceCharge>::empty());
    assert(start =~= start + Seq::<char>::empty());
    while i < acs.len()
        invariant
            i <= acs.len(),
            s@ == start + allowances_text(acs@.take(i as int), charge, cur@, profile),
        decreases acs.len() - i,
    {
        write_allowance(s, &acs[i], charge, cur, profile);
        proof {
            assert(acs@.take(i + 1).drop_last() =~= acs@.take(i as int));
            lemma_app(start, allowances_text(acs@.take(i as int), charge, cur@, profile), allowance_text(acs@[i as int], charge, cur@, profile));
        }
        i = i + 1;
    }
    assert(acs@.take(acs.len() as int) =~= acs@);
}

fn write_lines(s: &mut String, invoice: &Invoice, line_tag: &str, qty_tag: &str, cur: &str)
    ensures
        final(s)@ == old(s)@ + lines_text(invoice.lines@, invoice.profile, line_tag@, qty_tag@, cur@),
{
    let ghost start = s@;
    let ghost ls = invoice.lines@;
    let mut k: usize = 0;
    assert(ls.take(0) =~= Seq::<Line>::empty());
    assert(start =~= start + Seq::<char>::empty());
    while k < invoice.lines.len()
        invariant
            k <= invoice.lines.len(),
            ls == invoice.lines@,
            s@ == start + lines_text(ls.take(k as int), invoice.profile, line_tag@, qty_tag@, cur@),
        decreases invoice.lines.len() - k,
    {
        write_line(s, &invoice.lines[k], invoice.profile, line_tag, qty_tag, cur);
        proof {
            assert(ls.take(k + 1).drop_last() =~= ls.take(k as int));
            lemma_app(start, lines_text(ls.take(k as int), invoice.profile, line_tag@, qty_tag@, cur@), line_text(ls[k as int], invoice.profile, line_tag@, qty_tag@, cur@));
        }
        k = k + 1;
    }
    assert(ls.take(ls.len() as int) =~= ls);
}

/// Document allowances and charges, tax totals, document totals, lines.
#[verifier::rlimit(40)]
fn write_amounts_and_lines(s: &mut String, invoice: &Invoice, line_tag: &str, qty_tag: &str, cur: &str)
    ensures
        final(s)@ == old(s)@ + amounts_and_lines_text(*invoice, line_tag@, qty_tag@, cur@),
        grows(old(s)@, final(s)@),
{
    let ghost s0 = s@;
    write_allowances(s, &invoice.document_allowances, false, cur, invoice.profile);
    write_allowances(s, &invoice.document_charges, true, cur, invoice.profile);
    write_tax_total(s, invoice, cur);
    write_totals(s, invoice, cur);
    write_lines(s, invoice, line_tag, qty_tag, cur);
    proof {
        reveal(amounts_and_lines_text);
        assert(s@ =~= s0 + amounts_and_lines_text(*invoice, line_tag@, qty_tag@, cur@));
        lemma_grows_by(s0, amounts_and_lines_text(*invoice, line_tag@, qty_tag@, cur@));
    }
}

/// The whole UBL text of an invoice: the XML declaration and document
/// element, BT-24, the header, the references, the parties, the document
/// amounts and the lines, then the closing tag. A credit note is written as
/// a CreditNote with CreditNoteTypeCode, CreditNoteLine and CreditedQuantity.
pub open spec fn ubl_text(invoice: Invoice) -> Seq<char> {
    let credit = invoice.kind == DocumentKind::CreditNote;
    let type_tag = if credit { "CreditNoteTypeCode"@ } else { "InvoiceTypeCode"@ };
    let line_tag = if credit { "CreditNoteLine"@ } else { "InvoiceLine"@ };
    let qty_tag = if credit { "CreditedQuantity"@ } else { "InvoicedQuantity"@ };
    ubl_head(credit) + crate::formats::xml_out::leaf_text(
        1,
        "cbc"@,
        "CustomizationID"@,
        Seq::empty(),
        written_spec_id(invoice),
    ) + header_text(invoice, credit, type_tag, invoice.currency@) + references_text(invoice) + parties_text(invoice)
        + amounts_and_lines_text(invoice, line_tag, qty_tag, invoice.currency@) + ubl_tail(credit)
}

/// Write a UBL Invoice, or a CreditNote for a credit note, without
/// validating it: the text is [`ubl_text`]. The document starts with the
/// XML declaration, the document element and BT-24 (the invoice's own, else
/// the profile's), and ends with the closing tag of the document element.
#[verifier::rlimit(40)]
pub fn write_unchecked(invoice: &Invoice) -> (r: String)
    ensures
        r@ == ubl_text(*invoice),
        ubl_shaped(*invoice, r@),
{
    let credit = invoice.kind == DocumentKind::CreditNote;
    let root = if credit { "CreditNote" } else { "Invoice" };
    let xmlns = if credit { NS_CN } else { NS_INV };
    let type_tag = if credit { "CreditNoteTypeCode" } else { "InvoiceTypeCode" };
    let line_tag = if credit { "CreditNoteLine" } else { "InvoiceLine" };
    let qty_tag = if credit { "CreditedQuantity" } else { "InvoicedQuantity" };
    let spec = match &invoice.specification_id {
        Some(id) => id.as_str(),
        None => invoice.profile.specification_id(),
    };
    let cur = invoice.currency.as_str();
    let mut s = owned("<?xml version=\"1.0\" encoding=\"UTF-8\"?>\n<");
    s.append(root);
    s.append(" xmlns=\"");
    s.append(xmlns);
    s.append("\" xmlns:cac=\"");
    s.append(NS_CAC);
    s.append("\" xmlns:cbc=\"");
    s.append(NS_CBC);
    s.append("\">\n");
    leaf_el(&mut s, 1, "cbc", "CustomizationID", spec, None);
    let ghost head = s@;
    assert(head =~= ubl_head(credit) + crate::formats::xml_out::leaf_text(
        1,
        "cbc"@,
        "CustomizationID"@,
        Seq::empty(),
        written_spec_id(*invoice),
    ));
    write_header(&mut s, invoice, credit, type_tag, cur);
    let ghost h1 = s@;
    write_references(&mut s, invoice);
    let ghost h2 = s@;
    write_parties(&mut s, invoice);
    let ghost h3 = s@;
    write_amounts_and_lines(&mut s, invoice, line_tag, qty_tag, cur);
    let ghost body = s@;
    s.append("</");
    s.append(root);
    s.append(">\n");
    proof {
        let tail = ubl_tail(credit);
        assert(s@ =~= body + tail);
        assert(s@.subrange(s@.len() - tail.len(), s@.len() as int) =~= tail);
        assert(s@ =~= ubl_text(*invoice));
    }
    s
}

/// What the UBL writer leaves out: a credit note has no due date.
pub fn write_drops(invoice: &Invoice) -> (r: Vec<String>)
    ensures
        r@.len() == if invoice.kind == DocumentKind::CreditNote && invoice.due_date is Some { 1int } else { 0 },
        r@.len() == 1 ==> r@[0]@ == "CreditNote/DueDate"@,
{
    let mut drops: Vec<String> = Vec::new();
    if invoice.kind == DocumentKind::CreditNote && invoice.due_date.is_some() {
        drops.push(owned("CreditNote/DueDate"));
    }
    drops
}


/// The whole UBL text holds the text of the document totals.
proof fn lemma_ubl_holds_totals(invoice: Invoice)
    ensures
        contains(ubl_text(invoice), totals_text(invoice, invoice.currency@)),
{
    let credit = invoice.kind == DocumentKind::CreditNote;
    let type_tag = if credit { "CreditNoteTypeCode"@ } else { "InvoiceTypeCode"@ };
    let line_tag = if credit { "CreditNoteLine"@ } else { "InvoiceLine"@ };
    let qty_tag = if credit { "CreditedQuantity"@ } else { "InvoicedQuantity"@ };
    let cur = invoice.currency@;
    let tot = totals_text(invoice, cur);
    let head = ubl_head(credit) + crate::formats::xml_out::leaf_text(
        1,
        "cbc"@,
        "CustomizationID"@,
        Seq::empty(),
        written_spec_id(invoice),
    ) + header_text(invoice, credit, type_tag, cur) + references_text(invoice) + parties_text(invoice);
    let mid = allowances_text(invoice.document_allowances@, false, cur, invoice.profile) + allowances_text(
        invoice.document_charges@,
        true,
        cur,
        invoice.profile,
    ) + tax_total_text(invoice, cur);
    let lines = lines_text(invoice.lines@, invoice.profile, line_tag, qty_tag, cur);
    let tail = ubl_tail(credit);
    reveal(amounts_and_lines_text);
    assert(amounts_and_lines_text(invoice, line_tag, qty_tag, cur) == mid + tot + lines);
    assert(ubl_text(invoice) == head + (mid + tot + lines) + tail);
    assert(ubl_text(invoice) =~= (head + mid) + tot + (lines + tail));
    lemma_contains_piece(head + mid, tot, lines + tail);
}

/// The totals text holds the element of each total that is present.
proof fn lemma_totals_hold_amounts(invoice: Invoice, t: DocumentTotals, cur: Seq<char>)
    requires
        invoice.totals == Some(t),
    ensures
        contains(totals_text(invoice, cur), opt_amount_text(2, "LineExtensionAmount"@, t.line_net, cur)),
        contains(totals_text(invoice, cur), opt_amount_text(2, "TaxExclusiveAmount"@, t.without_tax, cur)),
        contains(totals_text(invoice, cur), opt_amount_text(2, "TaxInclusiveAmount"@, t.with_tax, cur)),
        contains(totals_text(invoice, cur), opt_amount_text(2, "AllowanceTotalAmount"@, t.allowance_total, cur)),
        contains(totals_text(invoice, cur), opt_amount_text(2, "ChargeTotalAmount"@, t.charge_total, cur)),
        contains(totals_text(invoice, cur), opt_amount_text(2, "PrepaidAmount"@, t.paid, cur)),
        contains(totals_text(invoice, cur), opt_amount_text(2, "PayableRoundingAmount"@, t.rounding, cur)),
        contains(totals_text(invoice, cur), opt_amount_text(2, "PayableAmount"@, t.payable, cur)),
{
    let f0 = o_text(1, "LegalMonetaryTotal"@);
    let f1 = opt_amount_text(2, "LineExtensionAmount"@, t.line_net, cur);
    let f2 = opt_amount_text(2, "TaxExclusiveAmount"@, t.without_tax, cur);
    let f3 = opt_amount_text(2, "TaxInclusiveAmount"@, t.with_tax, cur);
    let f4 = opt_amount_text(2, "AllowanceTotalAmount"@, t.allowance_total, cur);
    let f5 = opt_amount_text(2, "ChargeTotalAmount"@, t.charge_total, cur);
    let f6 = opt_amount_text(2, "PrepaidAmount"@, t.paid, cur);
    let f7 = opt_amount_text(2, "PayableRoundingAmount"@, t.rounding, cur);
    let f8 = opt_amount_text(2, "PayableAmount"@, t.payable, cur);
    let f9 = c_text(1, "LegalMonetaryTotal"@);
    let tot = totals_text(invoice, cur);
    assert(tot == f0 + f1 + f2 + f3 + f4 + f5 + f6 + f7 + f8 + f9) by {
        reveal(totals_text);
    }
    let l1 = f0 + f1;
    let l2 = l1 + f2;
    let l3 = l2 + f3;
    let l4 = l3 + f4;
    let l5 = l4 + f5;
    let l6 = l5 + f6;
    let l7 = l6 + f7;
    let l8 = l7 + f8;
    lemma_contains_ends(l8, f9);
    lemma_contains_ends(l7, f8);
    lemma_contains_ends(l6, f7);
    lemma_contains_ends(l5, f6);
    lemma_contains_ends(l4, f5);
    lemma_contains_ends(l3, f4);
    lemma_contains_ends(l2, f3);
    lemma_contains_ends(l1, f2);
    lemma_contains_ends(f0, f1);
    lemma_contains_trans(tot, l8, l7);
    lemma_contains_trans(tot, l7, l6);
    lemma_contains_trans(tot, l6, l5);
    lemma_contains_trans(tot, l5, l4);
    lemma_contains_trans(tot, l4, l3);
    lemma_contains_trans(tot, l3, l2);
    lemma_contains_trans(tot, l2, l1);
    lemma_contains_trans(tot, l1, f1);
    lemma_contains_trans(tot, l2, f2);
    lemma_contains_trans(tot, l3, f3);
    lemma_contains_trans(tot, l4, f4);
    lemma_contains_trans(tot, l5, f5);
    lemma_contains_trans(tot, l6, f6);
    lemma_contains_trans(tot, l7, f7);
    lemma_contains_trans(tot, l8, f8);
}

/// Each document total is written, in the document currency, under the UBL
/// element that names it: BT-106 as LineExtensionAmount, BT-109 as
/// TaxExclusiveAmount, BT-112 as TaxInclusiveAmount, BT-107 as
/// AllowanceTotalAmount, BT-108 as ChargeTotalAmount, BT-113 as
/// PrepaidAmount, BT-114 as PayableRoundingAmount and BT-115 as
/// PayableAmount; these are the elements the UBL reader takes each total
/// from.
pub proof fn lemma_totals_under_their_elements(invoice: Invoice)
    ensures
        invoice.totals matches Some(t) ==> {
            let w = ubl_text(invoice);
            let cur = invoice.currency@;
            &&& t.line_net matches Some(v) ==> contains(w, a_text(2, "LineExtensionAmount"@, v.dec(), cur))
            &&& t.without_tax matches Some(v) ==> contains(w, a_text(2, "TaxExclusiveAmount"@, v.dec(), cur))
            &&& t.with_tax matches Some(v) ==> contains(w, a_text(2, "TaxInclusiveAmount"@, v.dec(), cur))
            &&& t.allowance_total matches Some(v) ==> contains(w, a_text(2, "AllowanceTotalAmount"@, v.dec(), cur))
            &&& t.charge_total matches Some(v) ==> contains(w, a_text(2, "ChargeTotalAmount"@, v.dec(), cur))
            &&& t.paid matches Some(v) ==> contains(w, a_text(2, "PrepaidAmount"@, v.dec(), cur))
            &&& t.rounding matches Some(v) ==> contains(w, a_text(2, "PayableRoundingAmount"@, v.dec(), cur))
            &&& t.payable matches Some(v) ==> contains(w, a_text(2, "PayableAmount"@, v.dec(), cur))
        },
{
    if let Some(t) = invoice.totals {
        let w = ubl_text(invoice);
        let cur = invoice.currency@;
        let tot = totals_text(invoice, cur);
        lemma_ubl_holds_totals(invoice);
        lemma_totals_hold_amounts(invoice, t, cur);
        lemma_contains_trans(w, tot, opt_amount_text(2, "LineExtensionAmount"@, t.line_net, cur));
        lemma_contains_trans(w, tot, opt_amount_text(2, "TaxExclusiveAmount"@, t.without_tax, cur));
        lemma_contains_trans(w, tot, opt_amount_text(2, "TaxInclusiveAmount"@, t.with_tax, cur));
        lemma_contains_trans(w, tot, opt_amount_text(2, "AllowanceTotalAmount"@, t.allowance_total, cur));
        lemma_contains_trans(w, tot, opt_amount_text(2, "ChargeTotalAmount"@, t.charge_total, cur));
        lemma_contains_trans(w, tot, opt_amount_text(2, "PrepaidAmount"@, t.paid, cur));
        lemma_contains_trans(w, tot, opt_amount_text(2, "PayableRoundingAmount"@, t.rounding, cur));
        lemma_contains_trans(w, tot, opt_amount_text(2, "PayableAmount"@, t.payable, cur));
    }
}

} // verus!
