//! Reading UN/CEFACT CII D16B (`CrossIndustryInvoice`) into the semantic model.
use vstd::prelude::*;
use crate::amount::{InvoiceAmount, UnitPriceAmount};
use crate::code::Code;
use crate::codes::{credit_note_type, invoice_type, listed_exact, uncl_1001_credit_note_spec};
use crate::date::{Date, digit_field, digit_run, valid_ymd};
use crate::dec::{Dec, decimal_parse};
use crate::formats::{FormatError, Read};
use crate::formats::tree::{
    XmlNode, XmlNodeView, named_children, attribute, attribute_spec, child, child_text, child_text_spec, children, named_child, node_text,
    node_views, opt_code, opt_int, opt_percent, opt_text, parse_xml, parsed_xml, parsed_opt, root_element,
    root_element_spec, text_of,
};
use crate::formats::ubl::{or_empty, profile_of_id, same_header};
use crate::formats::ubl_read::{amount_dec, amount_read, qty_dec, taxable_read, text_or_none, trimmed_parse, unit_dec, child_amount, opt_child, opt_child_text};
use crate::formats::xml::{MAX_DEPTH, MAX_INPUT_BYTES, depth_at, refuse_depth, refuse_dtd, refuse_oversize};
use crate::identifier::{DocumentReference, Identifier};
use crate::invoice::{
    AllowanceCharge, Contact, Delivery, DocumentTotals, Invoice, InvoiceNote, ItemAttribute, Line,
    LineAllowanceCharge, Party, Payee, PaymentInstructions, Period, PostalAddress,
    PrecedingInvoice, Price, SupportingDocument, TaxBreakdown, TaxRepresentative,
};
use crate::kind::DocumentKind;
use crate::numeric::{Percentage, Quantity};
use crate::payment::{CreditTransfer, PaymentMeans};
use crate::profile::{Profile, ProfileLookup};
use crate::tax::{TaxCategory, TaxSystem, wire_scheme_of, is_pint_my_category, pint_my_category, system_for_name, wire_scheme};
use crate::text::{blank, eq_ic, trim, chars_of, concat, contains, lower_text, owned, str_eq, str_eq_ic};

verus! {

/// Year, month and day of an 8-character `YYYYMMDD` text (format 102).
pub open spec fn fields_102(t: Seq<char>) -> Option<(int, int, int)> {
    if t.len() == 8 {
        match (
            digit_field(t.subrange(0, 4)),
            digit_field(t.subrange(4, 6)),
            digit_field(t.subrange(6, 8)),
        ) {
            (Some(y), Some(m), Some(d)) => Some((y, m, d)),
            _ => None,
        }
    } else {
        None
    }
}

/// Calendar date written as `YYYYMMDD`.
pub fn from_102(s: &str) -> (r: Option<Date>)
    ensures
        match fields_102(s@) {
            Some((y, m, d)) => {
                &&& r is Some <==> valid_ymd(y, m, d)
                &&& r matches Some(x) ==> x.y() == y && x.m() == m && x.d() == d
            },
            None => r is None,
        },
{
    let v = chars_of(s);
    if v.len() != 8 {
        return None;
    }
    let y = digit_run(v.as_slice(), 0, 4);
    let m = digit_run(v.as_slice(), 4, 6);
    let d = digit_run(v.as_slice(), 6, 8);
    match (y, m, d) {
        (Some(y), Some(m), Some(d)) => {
            if m < 0 || m > 255 || d < 0 || d > 255 {
                return None;
            }
            match Date::new(y, m as u8, d as u8) {
                Ok(x) => Some(x),
                Err(_) => None,
            }
        },
        _ => None,
    }
}

/// The date a `DateTimeString` node reads as: its text in format `102`
/// (an absent format means `102`), where that is a calendar date.
pub open spec fn date_102_read(v: XmlNodeView) -> Option<(int, int, int)> {
    match node_text(v) {
        Some(t) => if attribute_spec(v, "format"@) is None || attribute_spec(v, "format"@) == Some("102"@) {
            match fields_102(t) {
                Some((y, m, d)) => if valid_ymd(y, m, d) { Some((y, m, d)) } else { None },
                None => None,
            }
        } else {
            None
        },
        None => None,
    }
}

/// Date from a `DateTimeString` node: format `102` only (absent format means
/// `102`); anything else is recorded as malformed.
pub fn from_102_node(doc: &Vec<XmlNode>, j: usize, malformed: &mut Vec<String>) -> (r: Option<Date>)
    requires
        j < doc.len(),
    ensures
        match date_102_read(doc@[j as int]@) {
            Some((y, m, d)) => r matches Some(x) && x.y() == y && x.m() == m && x.d() == d,
            None => r is None,
        },
        node_text(doc@[j as int]@) is None || date_102_read(doc@[j as int]@) is Some ==> final(malformed)@ == old(malformed)@,
        node_text(doc@[j as int]@) is Some && date_102_read(doc@[j as int]@) is None ==> final(malformed)@.len() == old(malformed)@.len() + 1
            && final(malformed)@.drop_last() == old(malformed)@,
{
    let s = match text_of(doc, j) {
        Some(t) => t,
        None => {
            return None;
        },
    };
    let format = match attribute(doc, j, "format") {
        Some(f) => f,
        None => owned("102"),
    };
    if !str_eq(format.as_str(), "102") {
        let mut m = owned("DateTimeString format=");
        m.append(format.as_str());
        m.append(" (not 102): ");
        m.append(s.as_str());
        malformed.push(m);
        assert(final(malformed)@.drop_last() =~= old(malformed)@);
        return None;
    }
    match from_102(s.as_str()) {
        Some(d) => Some(d),
        None => {
            malformed.push(concat("DateTimeString: ", s.as_str()));
            assert(final(malformed)@.drop_last() =~= old(malformed)@);
            None
        },
    }
}

/// The date that the `DateTimeString` under the `name` child of an optional
/// node reads as.
pub open spec fn date_at_read(vs: Seq<XmlNodeView>, p: Option<int>, name: Seq<char>) -> Option<(int, int, int)> {
    match child_of(vs, child_of(vs, p, name), "DateTimeString"@) {
        Some(n) => date_102_read(vs[n]),
        None => None,
    }
}

/// A date is the one read, or absent where none is read.
pub open spec fn date_is(d: Option<Date>, v: Option<(int, int, int)>) -> bool {
    match v {
        Some((y, m, dd)) => d matches Some(x) && x.y() == y && x.m() == m && x.d() == dd,
        None => d is None,
    }
}

fn date_at(doc: &Vec<XmlNode>, p: Option<usize>, name: &str, malformed: &mut Vec<String>) -> (r: Option<Date>)
    requires
        p matches Some(i) ==> i < doc.len(),
    ensures
        date_is(r, date_at_read(node_views(doc@), opt_int(p), name@)),
{
    match opt_child(doc, opt_child(doc, p, name), "DateTimeString") {
        Some(n) => from_102_node(doc, n, malformed),
        None => None,
    }
}

fn text_or_empty(t: Option<String>) -> (r: String)
    ensures
        t matches Some(s) ==> r@ == s@,
        t is None ==> r@ == Seq::<char>::empty(),
{
    match t {
        Some(s) => s,
        None => String::new(),
    }
}

fn code_of(t: Option<String>) -> (r: Option<Code>)
    ensures
        opt_code(r) == opt_text(t),
{
    match t {
        Some(s) => Some(Code::new(s.as_str())),
        None => None,
    }
}

/// The text of an optional reference.
pub open spec fn ref_view(r: Option<DocumentReference>) -> Option<Seq<char>> {
    match r {
        Some(x) => Some(x.0@),
        None => None,
    }
}

fn reference_of(t: Option<String>) -> (r: Option<DocumentReference>)
    ensures
        ref_view(r) == opt_text(t),
{
    match t {
        Some(s) => Some(DocumentReference(s)),
        None => None,
    }
}

/// An identifier is what a node reads as: its text (empty where absent)
/// and its `schemeID`.
pub open spec fn schemed_read(v: XmlNodeView, id: Identifier) -> bool {
    id.value@ == text_or_none(node_text(v)) && opt_text(id.scheme) == attribute_spec(v, "schemeID"@) && id.scheme_version is None
}

fn schemed(doc: &Vec<XmlNode>, j: usize) -> (r: Identifier)
    requires
        j < doc.len(),
    ensures
        schemed_read(doc@[j as int]@, r),
{
    Identifier {
        value: text_or_empty(text_of(doc, j)),
        scheme: attribute(doc, j, "schemeID"),
        scheme_version: None,
    }
}

/// An optional identifier is what an optional node reads as.
pub open spec fn opt_schemed_read(vs: Seq<XmlNodeView>, j: Option<int>, id: Option<Identifier>) -> bool {
    match j {
        Some(i) => id matches Some(x) && schemed_read(vs[i], x),
        None => id is None,
    }
}

fn opt_schemed(doc: &Vec<XmlNode>, j: Option<usize>) -> (r: Option<Identifier>)
    requires
        j matches Some(i) ==> i < doc.len(),
    ensures
        opt_schemed_read(node_views(doc@), opt_int(j), r),
{
    match j {
        Some(i) => Some(schemed(doc, i)),
        None => None,
    }
}

fn decimal_of(t: Option<String>) -> (r: Option<Percentage>)
    ensures
        opt_percent(r) == parsed_opt(opt_text(t)),
{
    match t {
        Some(s) => match Dec::parse(s.as_str()) {
            Ok(d) => Some(Percentage::new(d)),
            Err(_) => None,
        },
        None => None,
    }
}

fn unit_price_of(t: Option<String>) -> (r: Option<UnitPriceAmount>)
    ensures
        unit_dec(r) == trimmed_parse(opt_text(t)),
{
    match t {
        Some(s) => match UnitPriceAmount::parse(s.as_str()) {
            Ok(p) => Some(p),
            Err(_) => None,
        },
        None => None,
    }
}

/// Postal address from a `PostalTradeAddress` node.
pub fn read_postal(doc: &Vec<XmlNode>, n: usize) -> (r: PostalAddress)
    requires
        n < doc.len(),
    ensures
        postal_read(node_views(doc@), n as int, r),
{
    PostalAddress {
        line1: child_text(doc, n, "LineOne"),
        line2: child_text(doc, n, "LineTwo"),
        line3: child_text(doc, n, "LineThree"),
        city: child_text(doc, n, "CityName"),
        post_code: child_text(doc, n, "PostcodeCode"),
        subdivision: child_text(doc, n, "CountrySubDivisionName"),
        country: code_of(child_text(doc, n, "CountryID")),
    }
}

/// A postal address is what a `PostalTradeAddress` node reads as.
pub open spec fn postal_read(vs: Seq<XmlNodeView>, n: int, a: PostalAddress) -> bool {
    &&& opt_text(a.line1) == child_text_spec(vs, n, "LineOne"@)
    &&& opt_text(a.line2) == child_text_spec(vs, n, "LineTwo"@)
    &&& opt_text(a.line3) == child_text_spec(vs, n, "LineThree"@)
    &&& opt_text(a.city) == child_text_spec(vs, n, "CityName"@)
    &&& opt_text(a.post_code) == child_text_spec(vs, n, "PostcodeCode"@)
    &&& opt_text(a.subdivision) == child_text_spec(vs, n, "CountrySubDivisionName"@)
    &&& opt_code(a.country) == child_text_spec(vs, n, "CountryID"@)
}

/// Party from a trade party node. A tax registration with scheme `VA` is the
/// VAT identifier; the first other one is the tax registration.
/// The `ID` nodes of tax registrations that give the VAT identifier (the
/// last with scheme `VA`) and the other tax registration (the first of any
/// other scheme).
pub open spec fn tax_regs(vs: Seq<XmlNodeView>, ts: Seq<int>) -> (Option<int>, Option<int>)
    decreases ts.len(),
{
    if ts.len() == 0 {
        (None, None)
    } else {
        let (vat, tax) = tax_regs(vs, ts.drop_last());
        match named_child(vs, ts.last(), "ID"@) {
            Some(id) => if attribute_spec(vs[id], "schemeID"@) == Some("VA"@) {
                (Some(id), tax)
            } else if tax is None {
                (vat, Some(id))
            } else {
                (vat, tax)
            },
            None => (vat, tax),
        }
    }
}

/// A CII trade party as read from its node: name, postal address, contact,
/// legal organisation, description, global ids then plain ids, endpoint, and
/// the VAT identifier and other tax registration.
pub open spec fn cii_party_read(vs: Seq<XmlNodeView>, node: int, p: Party) -> bool {
    let gs = kids_in(vs, node, "GlobalID"@);
    let is = kids_in(vs, node, "ID"@);
    let regs = tax_regs(vs, kids_in(vs, node, "SpecifiedTaxRegistration"@));
    &&& p.name@ == text_or_none(child_text_spec(vs, node, "Name"@))
    &&& match named_child(vs, node, "PostalTradeAddress"@) {
        Some(a) => p.address matches Some(x) && postal_read(vs, a, x),
        None => p.address is None,
    }
    &&& match named_child(vs, node, "DefinedTradeContact"@) {
        Some(ct) => p.contact matches Some(c) && opt_text(c.point) == child_text_spec(vs, ct, "PersonName"@) && opt_text(
            c.phone,
        ) == text_under(vs, named_child(vs, ct, "TelephoneUniversalCommunication"@), "CompleteNumber"@) && opt_text(c.email)
            == text_under(vs, named_child(vs, ct, "EmailURIUniversalCommunication"@), "URIID"@),
        None => p.contact is None,
    }
    &&& match named_child(vs, node, "SpecifiedLegalOrganization"@) {
        Some(o) => opt_schemed_read(vs, named_child(vs, o, "ID"@), p.legal_registration) && opt_text(p.trading_name)
            == child_text_spec(vs, o, "TradingBusinessName"@),
        None => p.legal_registration is None && p.trading_name is None,
    }
    &&& opt_text(p.additional_legal) == child_text_spec(vs, node, "Description"@)
    &&& p.identifiers@.len() == gs.len() + is.len()
    &&& forall|k: int| #![trigger gs[k]] 0 <= k < gs.len() ==> schemed_read(vs[gs[k]], p.identifiers@[k])
    &&& forall|k: int| #![trigger is[k]] 0 <= k < is.len() ==> p.identifiers@[gs.len() + k].value@ == text_or_none(node_text(vs[is[k]]))
        && p.identifiers@[gs.len() + k].scheme is None && p.identifiers@[gs.len() + k].scheme_version is None
    &&& opt_schemed_read(vs, child_of(vs, named_child(vs, node, "URIUniversalCommunication"@), "URIID"@), p.electronic_address)
    &&& opt_schemed_read(vs, regs.0, p.vat_identifier)
    &&& opt_schemed_read(vs, regs.1, p.tax_registration)
    &&& p.party_taxes@.len() == 0
}

#[verifier::rlimit(80)]
pub fn read_party(doc: &Vec<XmlNode>, node: usize) -> (r: Party)
    requires
        node < doc.len(),
    ensures
        cii_party_read(node_views(doc@), node as int, r),
{
    let ghost vs = node_views(doc@);
    assert(vs.len() == doc@.len());
    let name = text_or_empty(child_text(doc, node, "Name"));
    let addr = child(doc, node, "PostalTradeAddress");
    let country = text_or_empty(opt_child_text(doc, addr, "CountryID"));
    let mut party = Party::new(name.as_str(), country.as_str());
    match addr {
        Some(a) => {
            party.address = Some(read_postal(doc, a));
        },
        None => {},
    }
    match child(doc, node, "DefinedTradeContact") {
        Some(ct) => {
            party.contact = Some(
                Contact {
                    point: child_text(doc, ct, "PersonName"),
                    phone: opt_child_text(doc, child(doc, ct, "TelephoneUniversalCommunication"), "CompleteNumber"),
                    email: opt_child_text(doc, child(doc, ct, "EmailURIUniversalCommunication"), "URIID"),
                },
            );
        },
        None => {},
    }
    match child(doc, node, "SpecifiedLegalOrganization") {
        Some(org) => {
            match child(doc, org, "ID") {
                Some(id) => {
                    party.legal_registration = Some(schemed(doc, id));
                },
                None => {},
            }
            party.trading_name = child_text(doc, org, "TradingBusinessName");
        },
        None => {},
    }
    party.additional_legal = child_text(doc, node, "Description");
    let ghost p0 = party;
    let globals = children(doc, node, "GlobalID");
    let ghost gs = kids_in(vs, node as int, "GlobalID"@);
    let mut i: usize = 0;
    while i < globals.len()
        invariant
            i <= globals.len(),
            vs == node_views(doc@),
            globals@.len() == gs.len(),
            forall|k: int| 0 <= k < globals@.len() ==> globals@[k] as int == gs[k],
            forall|k: int| 0 <= k < globals@.len() ==> globals@[k] < doc.len(),
            party == (Party { identifiers: party.identifiers, ..p0 }),
            party.identifiers@.len() == i,
            forall|k: int| #![trigger gs[k]] 0 <= k < i ==> schemed_read(vs[gs[k]], party.identifiers@[k]),
        decreases globals.len() - i,
    {
        party.identifiers.push(schemed(doc, globals[i]));
        i = i + 1;
    }
    let ids = children(doc, node, "ID");
    let ghost is = kids_in(vs, node as int, "ID"@);
    let mut j: usize = 0;
    while j < ids.len()
        invariant
            j <= ids.len(),
            vs == node_views(doc@),
            ids@.len() == is.len(),
            forall|k: int| 0 <= k < ids@.len() ==> ids@[k] as int == is[k],
            forall|k: int| 0 <= k < ids@.len() ==> ids@[k] < doc.len(),
            party == (Party { identifiers: party.identifiers, ..p0 }),
            party.identifiers@.len() == gs.len() + j,
            forall|k: int| #![trigger gs[k]] 0 <= k < gs.len() ==> schemed_read(vs[gs[k]], party.identifiers@[k]),
            forall|k: int| #![trigger is[k]] 0 <= k < j ==> party.identifiers@[gs.len() + k].value@ == text_or_none(node_text(vs[is[k]]))
                && party.identifiers@[gs.len() + k].scheme is None && party.identifiers@[gs.len() + k].scheme_version is None,
        decreases ids.len() - j,
    {
        party.identifiers.push(
            Identifier { value: text_or_empty(text_of(doc, ids[j])), scheme: None, scheme_version: None },
        );
        j = j + 1;
    }
    match opt_child(doc, child(doc, node, "URIUniversalCommunication"), "URIID") {
        Some(ep) => {
            party.electronic_address = Some(schemed(doc, ep));
        },
        None => {},
    }
    let ghost p1 = party;
    let taxes = children(doc, node, "SpecifiedTaxRegistration");
    let ghost ts = kids_in(vs, node as int, "SpecifiedTaxRegistration"@);
    let mut t: usize = 0;
    while t < taxes.len()
        invariant
            t <= taxes.len(),
            vs == node_views(doc@),
            taxes@.len() == ts.len(),
            forall|k: int| 0 <= k < taxes@.len() ==> taxes@[k] as int == ts[k],
            forall|k: int| 0 <= k < taxes@.len() ==> taxes@[k] < doc.len(),
            party == (Party { vat_identifier: party.vat_identifier, tax_registration: party.tax_registration, ..p1 }),
            p1.vat_identifier is None && p1.tax_registration is None,
            opt_schemed_read(vs, tax_regs(vs, ts.take(t as int)).0, party.vat_identifier),
            opt_schemed_read(vs, tax_regs(vs, ts.take(t as int)).1, party.tax_registration),
        decreases taxes.len() - t,
    {
        assert(ts.take(t + 1).drop_last() =~= ts.take(t as int));
        match child(doc, taxes[t], "ID") {
            Some(id) => {
                let ident = schemed(doc, id);
                let is_va = match &ident.scheme {
                    Some(s) => str_eq(s.as_str(), "VA"),
                    None => false,
                };
                if is_va {
                    party.vat_identifier = Some(ident);
                } else if party.tax_registration.is_none() {
                    party.tax_registration = Some(ident);
                }
            },
            None => {},
        }
        t = t + 1;
    }
    assert(ts.take(t as int) =~= ts);
    party
}

/// The tax system a CII tax node of the category names: SST for a PINT-MY
/// category on PINT-MY, else its `TypeCode`, VAT where that names none.
pub open spec fn cii_system(code: Seq<char>, type_code: Seq<char>, profile: Profile) -> TaxSystem {
    if profile == Profile::PintMy && is_pint_my_category(code) {
        TaxSystem::Sst
    } else {
        match system_for_name(type_code) {
            Some(x) => x,
            None => TaxSystem::Vat,
        }
    }
}

fn line_tax(doc: &Vec<XmlNode>, n: Option<usize>, profile: Profile) -> (r: TaxCategory)
    requires
        n matches Some(i) ==> i < doc.len(),
    ensures
        n is None ==> r.system == TaxSystem::Vat && r.code@ == Seq::<char>::empty() && r.percent is None,
        n matches Some(i) ==> {
            let vs = node_views(doc@);
            let code = text_or_none(child_text_spec(vs, i as int, "CategoryCode"@));
            &&& r.code@ == code
            &&& r.system == cii_system(code, text_or_none(child_text_spec(vs, i as int, "TypeCode"@)), profile)
            &&& opt_percent(r.percent) == parsed_opt(child_text_spec(vs, i as int, "RateApplicablePercent"@))
        },
{
    match n {
        Some(n) => {
            let code = text_or_empty(child_text(doc, n, "CategoryCode"));
            let percent = decimal_of(child_text(doc, n, "RateApplicablePercent"));
            let scheme = text_or_empty(child_text(doc, n, "TypeCode"));
            let system = if profile == Profile::PintMy && pint_my_category(code.as_str()) {
                TaxSystem::Sst
            } else {
                match TaxSystem::parse(scheme.as_str()) {
                    Some(s) => s,
                    None => TaxSystem::Vat,
                }
            };
            TaxCategory { system, code, percent }
        },
        None => TaxCategory { system: TaxSystem::Vat, code: String::new(), percent: None },
    }
}

/// The charge indicator of a CII allowance or charge node reads as `true`.
pub open spec fn true_indicator(vs: Seq<XmlNodeView>, ac: int) -> bool {
    text_under(vs, named_child(vs, ac, "ChargeIndicator"@), "Indicator"@) matches Some(t) && eq_ic(t, "true"@)
}

fn is_true_indicator(doc: &Vec<XmlNode>, ac: usize) -> (r: bool)
    requires
        ac < doc.len(),
    ensures
        r == true_indicator(node_views(doc@), ac as int),
{
    match opt_child_text(doc, child(doc, ac, "ChargeIndicator"), "Indicator") {
        Some(s) => str_eq_ic(s.as_str(), "true"),
        None => false,
    }
}

/// The price that a line agreement node reads as, where it states a net
/// price: gross price and its discount, the basis quantity of the gross
/// price (else of the net price) with its unit.
pub open spec fn line_price_read(vs: Seq<XmlNodeView>, agr: int, p: Price) -> bool {
    let price = named_child(vs, agr, "NetPriceProductTradePrice"@);
    let gross_el = named_child(vs, agr, "GrossPriceProductTradePrice"@);
    let bq = match child_of(vs, gross_el, "BasisQuantity"@) {
        Some(b) => Some(b),
        None => child_of(vs, price, "BasisQuantity"@),
    };
    &&& unit_dec(Some(p.net)) == trimmed_parse(text_under(vs, price, "ChargeAmount"@))
    &&& unit_dec(p.gross) == trimmed_parse(text_under(vs, gross_el, "ChargeAmount"@))
    &&& unit_dec(p.discount) == trimmed_parse(
        text_under(vs, child_of(vs, gross_el, "AppliedTradeAllowanceCharge"@), "ActualAmount"@),
    )
    &&& qty_dec(p.base_qty) == match bq {
        Some(b) => trimmed_parse(node_text(vs[b])),
        None => None,
    }
    &&& opt_code(p.base_unit) == match bq {
        Some(b) => attribute_spec(vs[b], "unitCode"@),
        None => None,
    }
}

fn read_line_price(doc: &Vec<XmlNode>, line: &mut Line, agr: usize)
    requires
        agr < doc.len(),
    ensures
        ({
            let vs = node_views(doc@);
            &&& opt_text(final(line).order_line) == text_under(
                vs,
                named_child(vs, agr as int, "BuyerOrderReferencedDocument"@),
                "LineID"@,
            )
            &&& trimmed_parse(text_under(vs, named_child(vs, agr as int, "NetPriceProductTradePrice"@), "ChargeAmount"@)) is None
                ==> final(line).price == old(line).price
            &&& trimmed_parse(text_under(vs, named_child(vs, agr as int, "NetPriceProductTradePrice"@), "ChargeAmount"@)) is Some
                ==> (final(line).price matches Some(p) && line_price_read(vs, agr as int, p))
        }),
        final(line).id == old(line).id,
        final(line).name == old(line).name,
        final(line).net == old(line).net,
        final(line).tax == old(line).tax,
        final(line).quantity == old(line).quantity,
        final(line).unit == old(line).unit,
        final(line).note == old(line).note,
        final(line).attributes == old(line).attributes,
        final(line).classifications == old(line).classifications,
        final(line).description == old(line).description,
        final(line).origin_country == old(line).origin_country,
        final(line).allowances == old(line).allowances,
        final(line).charges == old(line).charges,
        final(line).period == old(line).period,
        final(line).accounting_reference == old(line).accounting_reference,
        final(line).standard_id == old(line).standard_id,
        final(line).item_id == old(line).item_id,
        final(line).buyer_id == old(line).buyer_id,
        final(line).invoiced_object == old(line).invoiced_object,
        final(line).invoiced_object_code == old(line).invoiced_object_code,
{
    line.order_line = opt_child_text(doc, child(doc, agr, "BuyerOrderReferencedDocument"), "LineID");
    let price = child(doc, agr, "NetPriceProductTradePrice");
    match unit_price_of(opt_child_text(doc, price, "ChargeAmount")) {
        Some(net) => {
            let gross_el = child(doc, agr, "GrossPriceProductTradePrice");
            let gross = unit_price_of(opt_child_text(doc, gross_el, "ChargeAmount"));
            let discount = unit_price_of(opt_child_text(doc, opt_child(doc, gross_el, "AppliedTradeAllowanceCharge"), "ActualAmount"));
            let bq = match opt_child(doc, gross_el, "BasisQuantity") {
                Some(b) => Some(b),
                None => opt_child(doc, price, "BasisQuantity"),
            };
            let base_qty = match bq {
                Some(b) => match text_of(doc, b) {
                    Some(t) => match Quantity::parse(t.as_str()) {
                        Ok(q) => Some(q),
                        Err(_) => None,
                    },
                    None => None,
                },
                None => None,
            };
            let base_unit = match bq {
                Some(b) => code_of(attribute(doc, b, "unitCode")),
                None => None,
            };
            line.price = Some(Price { net, discount, gross, base_qty, base_unit });
        },
        None => {},
    }
}

/// The characteristics that `ApplicableProductCharacteristic` nodes read as:
/// for each with a description, the description and the value (or empty).
pub open spec fn chars_read(vs: Seq<XmlNodeView>, ks: Seq<int>) -> Seq<(Seq<char>, Seq<char>)>
    decreases ks.len(),
{
    if ks.len() == 0 {
        Seq::empty()
    } else {
        match child_text_spec(vs, ks.last(), "Description"@) {
            Some(name) => chars_read(vs, ks.drop_last()).push((name, text_or_none(child_text_spec(vs, ks.last(), "Value"@)))),
            None => chars_read(vs, ks.drop_last()),
        }
    }
}

/// The classifications that `DesignatedProductClassification` nodes read
/// as: for each with a class code text, the text and its `listID` (else
/// `schemeID`).
pub open spec fn product_classes_read(vs: Seq<XmlNodeView>, ks: Seq<int>) -> Seq<(Seq<char>, Option<Seq<char>>)>
    decreases ks.len(),
{
    if ks.len() == 0 {
        Seq::empty()
    } else {
        let rest = product_classes_read(vs, ks.drop_last());
        match named_child(vs, ks.last(), "ClassCode"@) {
            Some(code) => match node_text(vs[code]) {
                Some(value) => rest.push(
                    (
                        value,
                        match attribute_spec(vs[code], "listID"@) {
                            Some(l) => Some(l),
                            None => attribute_spec(vs[code], "schemeID"@),
                        },
                    ),
                ),
                None => rest,
            },
            None => rest,
        }
    }
}

/// The element children of `p` with the local name, in document order.
pub open spec fn kids_of(doc: Seq<XmlNode>, p: int, name: Seq<char>) -> Seq<int> {
    named_children(node_views(doc), p, name, doc.len() as int)
}

fn read_line_product(doc: &Vec<XmlNode>, line: &mut Line, product: usize)
    requires
        product < doc.len(),
    ensures
        ({
            let vs = node_views(doc@);
            let p = product as int;
            let cs = chars_read(vs, kids_of(doc@, p, "ApplicableProductCharacteristic"@));
            let ls = product_classes_read(vs, kids_of(doc@, p, "DesignatedProductClassification"@));
            &&& opt_text(final(line).description) == child_text_spec(vs, p, "Description"@)
            &&& opt_schemed_read(vs, named_child(vs, p, "GlobalID"@), final(line).standard_id)
            &&& opt_schemed_read(vs, named_child(vs, p, "SellerAssignedID"@), final(line).item_id)
            &&& opt_schemed_read(vs, named_child(vs, p, "BuyerAssignedID"@), final(line).buyer_id)
            &&& final(line).attributes@.len() == old(line).attributes@.len() + cs.len()
            &&& forall|k: int| #![trigger final(line).attributes@[k]] 0 <= k < old(line).attributes@.len() ==> final(line).attributes@[k] == old(line).attributes@[k]
            &&& forall|k: int| #![trigger cs[k]] 0 <= k < cs.len() ==> final(line).attributes@[old(line).attributes@.len() + k].name@ == cs[k].0
                && final(line).attributes@[old(line).attributes@.len() + k].value@ == cs[k].1
            &&& final(line).classifications@.len() == old(line).classifications@.len() + ls.len()
            &&& forall|k: int| #![trigger final(line).classifications@[k]] 0 <= k < old(line).classifications@.len() ==> final(line).classifications@[k] == old(line).classifications@[k]
            &&& forall|k: int| #![trigger ls[k]] 0 <= k < ls.len() ==> final(line).classifications@[old(line).classifications@.len() + k].value@ == ls[k].0
                && opt_text(final(line).classifications@[old(line).classifications@.len() + k].scheme) == ls[k].1
            &&& opt_code(final(line).origin_country) == text_under(vs, named_child(vs, p, "OriginTradeCountry"@), "ID"@)
        }),
        final(line).id == old(line).id,
        final(line).name == old(line).name,
        final(line).net == old(line).net,
        final(line).tax == old(line).tax,
        final(line).price == old(line).price,
        final(line).quantity == old(line).quantity,
        final(line).unit == old(line).unit,
        final(line).order_line == old(line).order_line,
        final(line).note == old(line).note,
        final(line).allowances == old(line).allowances,
        final(line).charges == old(line).charges,
        final(line).period == old(line).period,
        final(line).accounting_reference == old(line).accounting_reference,
        final(line).invoiced_object == old(line).invoiced_object,
        final(line).invoiced_object_code == old(line).invoiced_object_code,
{
    let ghost vs = node_views(doc@);
    let ghost a0 = line.attributes@;
    let ghost c0 = line.classifications@;
    line.description = child_text(doc, product, "Description");
    line.standard_id = opt_schemed(doc, child(doc, product, "GlobalID"));
    line.item_id = opt_schemed(doc, child(doc, product, "SellerAssignedID"));
    line.buyer_id = opt_schemed(doc, child(doc, product, "BuyerAssignedID"));
    let chars = children(doc, product, "ApplicableProductCharacteristic");
    let ghost ks = kids_of(doc@, product as int, "ApplicableProductCharacteristic"@);
    let mut i: usize = 0;
    assert(ks.take(0) =~= Seq::<int>::empty());
    while i < chars.len()
        invariant
            i <= chars.len(),
            vs == node_views(doc@),
            chars@.len() == ks.len(),
            forall|k: int| 0 <= k < chars@.len() ==> chars@[k] as int == ks[k],
            forall|k: int| 0 <= k < chars@.len() ==> chars@[k] < doc.len(),
            line.attributes@.len() == a0.len() + chars_read(vs, ks.take(i as int)).len(),
            forall|k: int| #![trigger line.attributes@[k]] 0 <= k < a0.len() ==> line.attributes@[k] == a0[k],
            forall|k: int| #![trigger chars_read(vs, ks.take(i as int))[k]] 0 <= k < chars_read(vs, ks.take(i as int)).len() ==> line.attributes@[a0.len() + k].name@
                == chars_read(vs, ks.take(i as int))[k].0 && line.attributes@[a0.len() + k].value@ == chars_read(vs, ks.take(i as int))[k].1,
            line.classifications@ == c0,
            line.id == old(line).id,
            line.name == old(line).name,
            line.net == old(line).net,
            line.tax == old(line).tax,
            line.price == old(line).price,
            line.quantity == old(line).quantity,
            line.unit == old(line).unit,
            line.order_line == old(line).order_line,
            line.note == old(line).note,
            line.allowances == old(line).allowances,
            line.charges == old(line).charges,
            line.period == old(line).period,
            line.accounting_reference == old(line).accounting_reference,
            line.invoiced_object == old(line).invoiced_object,
            line.invoiced_object_code == old(line).invoiced_object_code,
            opt_text(line.description) == child_text_spec(vs, product as int, "Description"@),
            opt_schemed_read(vs, named_child(vs, product as int, "GlobalID"@), line.standard_id),
            opt_schemed_read(vs, named_child(vs, product as int, "SellerAssignedID"@), line.item_id),
            opt_schemed_read(vs, named_child(vs, product as int, "BuyerAssignedID"@), line.buyer_id),
        decreases chars.len() - i,
    {
        assert(ks.take(i + 1).drop_last() =~= ks.take(i as int));
        match child_text(doc, chars[i], "Description") {
            Some(name) => {
                line.attributes.push(ItemAttribute { name, value: text_or_empty(child_text(doc, chars[i], "Value")) });
            },
            None => {},
        }
        i = i + 1;
    }
    assert(ks.take(ks.len() as int) =~= ks);
    let classes = children(doc, product, "DesignatedProductClassification");
    let ghost ls = kids_of(doc@, product as int, "DesignatedProductClassification"@);
    let ghost a1 = line.attributes@;
    let mut j: usize = 0;
    assert(ls.take(0) =~= Seq::<int>::empty());
    while j < classes.len()
        invariant
            j <= classes.len(),
            vs == node_views(doc@),
            classes@.len() == ls.len(),
            forall|k: int| 0 <= k < classes@.len() ==> classes@[k] as int == ls[k],
            forall|k: int| 0 <= k < classes@.len() ==> classes@[k] < doc.len(),
            line.classifications@.len() == c0.len() + product_classes_read(vs, ls.take(j as int)).len(),
            forall|k: int| #![trigger line.classifications@[k]] 0 <= k < c0.len() ==> line.classifications@[k] == c0[k],
            forall|k: int| #![trigger product_classes_read(vs, ls.take(j as int))[k]] 0 <= k < product_classes_read(vs, ls.take(j as int)).len() ==> line.classifications@[c0.len() + k].value@
                == product_classes_read(vs, ls.take(j as int))[k].0 && opt_text(line.classifications@[c0.len() + k].scheme) == product_classes_read(vs, ls.take(j as int))[k].1,
            line.attributes@ == a1,
            line.id == old(line).id,
            line.name == old(line).name,
            line.net == old(line).net,
            line.tax == old(line).tax,
            line.price == old(line).price,
            line.quantity == old(line).quantity,
            line.unit == old(line).unit,
            line.order_line == old(line).order_line,
            line.note == old(line).note,
            line.allowances == old(line).allowances,
            line.charges == old(line).charges,
            line.period == old(line).period,
            line.accounting_reference == old(line).accounting_reference,
            line.invoiced_object == old(line).invoiced_object,
            line.invoiced_object_code == old(line).invoiced_object_code,
            opt_text(line.description) == child_text_spec(vs, product as int, "Description"@),
            opt_schemed_read(vs, named_child(vs, product as int, "GlobalID"@), line.standard_id),
            opt_schemed_read(vs, named_child(vs, product as int, "SellerAssignedID"@), line.item_id),
            opt_schemed_read(vs, named_child(vs, product as int, "BuyerAssignedID"@), line.buyer_id),
        decreases classes.len() - j,
    {
        assert(ls.take(j + 1).drop_last() =~= ls.take(j as int));
        match child(doc, classes[j], "ClassCode") {
            Some(code) => match text_of(doc, code) {
                Some(value) => {
                    let scheme = match attribute(doc, code, "listID") {
                        Some(l) => Some(l),
                        None => attribute(doc, code, "schemeID"),
                    };
                    line.classifications.push(Identifier { value, scheme, scheme_version: None });
                },
                None => {},
            },
            None => {},
        }
        j = j + 1;
    }
    assert(ls.take(ls.len() as int) =~= ls);
    line.origin_country = code_of(opt_child_text(doc, child(doc, product, "OriginTradeCountry"), "ID"));
}

/// The line allowance or charge nodes of `ks` with a readable amount whose
/// indicator reads as `charge`, in order.
pub open spec fn line_acs_read(vs: Seq<XmlNodeView>, ks: Seq<int>, charge: bool) -> Seq<int>
    decreases ks.len(),
{
    if ks.len() == 0 {
        Seq::empty()
    } else if amount_read(vs, ks.last(), "ActualAmount"@) is Some && true_indicator(vs, ks.last()) == charge {
        line_acs_read(vs, ks.drop_last(), charge).push(ks.last())
    } else {
        line_acs_read(vs, ks.drop_last(), charge)
    }
}

/// A line allowance or charge is what a CII node reads as.
pub open spec fn cii_line_ac_read(vs: Seq<XmlNodeView>, j: int, a: LineAllowanceCharge) -> bool {
    &&& amount_read(vs, j, "ActualAmount"@) == Some(a.amount.dec())
    &&& amount_dec(a.base) == amount_read(vs, j, "BasisAmount"@)
    &&& opt_percent(a.percent) == parsed_opt(child_text_spec(vs, j, "CalculationPercent"@))
    &&& opt_text(a.reason) == child_text_spec(vs, j, "Reason"@)
    &&& opt_code(a.reason_code) == child_text_spec(vs, j, "ReasonCode"@)
}

/// `after` is `before` followed by what the nodes `sel` read as.
pub open spec fn acs_appended(vs: Seq<XmlNodeView>, before: Seq<LineAllowanceCharge>, after: Seq<LineAllowanceCharge>, sel: Seq<int>) -> bool {
    &&& after.len() == before.len() + sel.len()
    &&& forall|k: int| #![trigger after[k]] 0 <= k < before.len() ==> after[k] == before[k]
    &&& forall|k: int| #![trigger sel[k]] 0 <= k < sel.len() ==> cii_line_ac_read(vs, sel[k], after[before.len() + k])
}

fn read_line_settlement(doc: &Vec<XmlNode>, line: &mut Line, st: usize, malformed: &mut Vec<String>)
    requires
        st < doc.len(),
    ensures
        ({
            let vs = node_views(doc@);
            let s = st as int;
            let per = named_child(vs, s, "BillingSpecifiedPeriod"@);
            let ks = kids_of(doc@, s, "SpecifiedTradeAllowanceCharge"@);
            let adr = named_child(vs, s, "AdditionalReferencedDocument"@);
            &&& per is None ==> final(line).period == old(line).period
            &&& per is Some ==> (final(line).period matches Some(pp) && date_is(pp.start, date_at_read(vs, per, "StartDateTime"@))
                && date_is(pp.end, date_at_read(vs, per, "EndDateTime"@)))
            &&& acs_appended(vs, old(line).allowances@, final(line).allowances@, line_acs_read(vs, ks, false))
            &&& acs_appended(vs, old(line).charges@, final(line).charges@, line_acs_read(vs, ks, true))
            &&& match text_under(vs, adr, "IssuerAssignedID"@) {
                Some(id) => final(line).invoiced_object matches Some(o) && o.value@ == id && opt_text(o.scheme) == text_under(
                    vs,
                    adr,
                    "ReferenceTypeCode"@,
                ) && opt_code(final(line).invoiced_object_code) == text_under(vs, adr, "TypeCode"@),
                None => final(line).invoiced_object == old(line).invoiced_object && final(line).invoiced_object_code == old(
                    line,
                ).invoiced_object_code,
            }
            &&& opt_text(final(line).accounting_reference) == text_under(
                vs,
                named_child(vs, s, "ReceivableSpecifiedTradeAccountingAccount"@),
                "ID"@,
            )
        }),
        final(line).id == old(line).id,
        final(line).name == old(line).name,
        final(line).net == old(line).net,
        final(line).tax == old(line).tax,
        final(line).price == old(line).price,
        final(line).quantity == old(line).quantity,
        final(line).unit == old(line).unit,
        final(line).note == old(line).note,
        final(line).order_line == old(line).order_line,
        final(line).description == old(line).description,
        final(line).standard_id == old(line).standard_id,
        final(line).item_id == old(line).item_id,
        final(line).buyer_id == old(line).buyer_id,
        final(line).attributes == old(line).attributes,
        final(line).classifications == old(line).classifications,
        final(line).origin_country == old(line).origin_country,
{
    let ghost vs = node_views(doc@);
    match child(doc, st, "BillingSpecifiedPeriod") {
        Some(per) => {
            let start = date_at(doc, Some(per), "StartDateTime", malformed);
            let end = date_at(doc, Some(per), "EndDateTime", malformed);
            line.period = Some(Period { start, end });
        },
        None => {},
    }
    let ghost l1 = *line;
    let acs = children(doc, st, "SpecifiedTradeAllowanceCharge");
    let ghost ks = kids_of(doc@, st as int, "SpecifiedTradeAllowanceCharge"@);
    let mut i: usize = 0;
    assert(ks.take(0) =~= Seq::<int>::empty());
    while i < acs.len()
        invariant
            i <= acs.len(),
            vs == node_views(doc@),
            acs@.len() == ks.len(),
            forall|k: int| 0 <= k < acs@.len() ==> acs@[k] as int == ks[k],
            forall|k: int| 0 <= k < acs@.len() ==> acs@[k] < doc.len(),
            acs_appended(vs, l1.allowances@, line.allowances@, line_acs_read(vs, ks.take(i as int), false)),
            acs_appended(vs, l1.charges@, line.charges@, line_acs_read(vs, ks.take(i as int), true)),
            line.period == l1.period,
            line.id == old(line).id,
            line.name == old(line).name,
            line.net == old(line).net,
            line.tax == old(line).tax,
            line.invoiced_object == old(line).invoiced_object,
            line.invoiced_object_code == old(line).invoiced_object_code,
            line.price == old(line).price,
            line.quantity == old(line).quantity,
            line.unit == old(line).unit,
            line.note == old(line).note,
            line.order_line == old(line).order_line,
            line.description == old(line).description,
            line.standard_id == old(line).standard_id,
            line.item_id == old(line).item_id,
            line.buyer_id == old(line).buyer_id,
            line.attributes == old(line).attributes,
            line.classifications == old(line).classifications,
            line.origin_country == old(line).origin_country,
        decreases acs.len() - i,
    {
        assert(ks.take(i + 1).drop_last() =~= ks.take(i as int));
        let ac = acs[i];
        let charge = is_true_indicator(doc, ac);
        match child_amount(doc, ac, "ActualAmount", malformed, "CII-line-ac") {
            Some(amount) => {
                let base = child_amount(doc, ac, "BasisAmount", malformed, "CII-line-ac");
                let row = LineAllowanceCharge {
                    amount,
                    base,
                    percent: decimal_of(child_text(doc, ac, "CalculationPercent")),
                    reason: child_text(doc, ac, "Reason"),
                    reason_code: code_of(child_text(doc, ac, "ReasonCode")),
                };
                if charge {
                    line.charges.push(row);
                } else {
                    line.allowances.push(row);
                }
            },
            None => {},
        }
        i = i + 1;
    }
    assert(ks.take(ks.len() as int) =~= ks);
    match child(doc, st, "AdditionalReferencedDocument") {
        Some(adr) => match child_text(doc, adr, "IssuerAssignedID") {
            Some(id) => {
                line.invoiced_object = Some(
                    Identifier { value: id, scheme: child_text(doc, adr, "ReferenceTypeCode"), scheme_version: None },
                );
                line.invoiced_object_code = code_of(child_text(doc, adr, "TypeCode"));
            },
            None => {},
        },
        None => {},
    }
    line.accounting_reference = opt_child_text(doc, child(doc, st, "ReceivableSpecifiedTradeAccountingAccount"), "ID");
}

/// A line read from a CII line item node (its product, agreement and
/// settlement aside): id, name, net amount, tax category, quantity and note.
pub open spec fn line_head_read(vs: Seq<XmlNodeView>, node: int, profile: Profile, line: Line) -> bool {
    let assoc = named_child(vs, node, "AssociatedDocumentLineDocument"@);
    let product = named_child(vs, node, "SpecifiedTradeProduct"@);
    let st = named_child(vs, node, "SpecifiedLineTradeSettlement"@);
    let q = child_of(vs, named_child(vs, node, "SpecifiedLineTradeDelivery"@), "BilledQuantity"@);
    let tax_node = child_of(vs, st, "ApplicableTradeTax"@);
    &&& line.id@ == text_or_none(text_under(vs, assoc, "LineID"@))
    &&& line.name@ == text_or_none(text_under(vs, product, "Name"@))
    &&& taxable_read(line.net, match child_of(vs, st, "SpecifiedTradeSettlementLineMonetarySummation"@) {
        Some(sum) => amount_read(vs, sum, "LineTotalAmount"@),
        None => None,
    })
    &&& (tax_node is None ==> line.tax.system == TaxSystem::Vat && line.tax.code@ == Seq::<char>::empty() && line.tax.percent is None)
    &&& (tax_node matches Some(i) ==> {
        let code = text_or_none(child_text_spec(vs, i, "CategoryCode"@));
        &&& line.tax.code@ == code
        &&& line.tax.system == cii_system(code, text_or_none(child_text_spec(vs, i, "TypeCode"@)), profile)
        &&& opt_percent(line.tax.percent) == parsed_opt(child_text_spec(vs, i, "RateApplicablePercent"@))
    })
    &&& match q {
        Some(b) => qty_dec(line.quantity) == (match node_text(vs[b]) {
            Some(t) => decimal_parse(trim(t)),
            None => None,
        }) && opt_code(line.unit) == attribute_spec(vs[b], "unitCode"@),
        None => line.quantity is None && line.unit is None,
    }
    &&& opt_text(line.note) == text_under(vs, child_of(vs, assoc, "IncludedNote"@), "Content"@)
}

/// The children of `p` named `name`, in document order.
pub open spec fn kids_in(vs: Seq<XmlNodeView>, p: int, name: Seq<char>) -> Seq<int> {
    named_children(vs, p, name, vs.len() as int)
}

/// The rest of a line item as read: the order line reference and the price
/// from the line agreement (a net price that does not parse leaves no
/// price), the product's description, identifiers, characteristics,
/// classifications and origin, and the settlement's period, allowances,
/// charges, invoiced object and accounting reference. What a missing part
/// would give is absent or empty.
pub open spec fn line_rest_read(vs: Seq<XmlNodeView>, node: int, line: Line) -> bool {
    let agr = named_child(vs, node, "SpecifiedLineTradeAgreement"@);
    let product = named_child(vs, node, "SpecifiedTradeProduct"@);
    let st = named_child(vs, node, "SpecifiedLineTradeSettlement"@);
    &&& match agr {
        Some(a) => {
            let net_text = text_under(vs, named_child(vs, a, "NetPriceProductTradePrice"@), "ChargeAmount"@);
            &&& opt_text(line.order_line) == text_under(vs, named_child(vs, a, "BuyerOrderReferencedDocument"@), "LineID"@)
            &&& trimmed_parse(net_text) is None ==> line.price is None
            &&& trimmed_parse(net_text) is Some ==> (line.price matches Some(pr) && line_price_read(vs, a, pr))
        },
        None => line.price is None && line.order_line is None,
    }
    &&& match product {
        Some(p) => {
            let cs = chars_read(vs, kids_in(vs, p, "ApplicableProductCharacteristic"@));
            let ls = product_classes_read(vs, kids_in(vs, p, "DesignatedProductClassification"@));
            &&& opt_text(line.description) == child_text_spec(vs, p, "Description"@)
            &&& opt_schemed_read(vs, named_child(vs, p, "GlobalID"@), line.standard_id)
            &&& opt_schemed_read(vs, named_child(vs, p, "SellerAssignedID"@), line.item_id)
            &&& opt_schemed_read(vs, named_child(vs, p, "BuyerAssignedID"@), line.buyer_id)
            &&& line.attributes@.len() == cs.len()
            &&& forall|k: int| #![trigger cs[k]] 0 <= k < cs.len() ==> line.attributes@[k].name@ == cs[k].0 && line.attributes@[k].value@ == cs[k].1
            &&& line.classifications@.len() == ls.len()
            &&& forall|k: int| #![trigger ls[k]] 0 <= k < ls.len() ==> line.classifications@[k].value@ == ls[k].0 && opt_text(line.classifications@[k].scheme) == ls[k].1
            &&& opt_code(line.origin_country) == text_under(vs, named_child(vs, p, "OriginTradeCountry"@), "ID"@)
        },
        None => line.description is None && line.standard_id is None && line.item_id is None && line.buyer_id is None
            && line.attributes@.len() == 0 && line.classifications@.len() == 0 && line.origin_country is None,
    }
    &&& match st {
        Some(s) => {
            let per = named_child(vs, s, "BillingSpecifiedPeriod"@);
            let ks = kids_in(vs, s, "SpecifiedTradeAllowanceCharge"@);
            let adr = named_child(vs, s, "AdditionalReferencedDocument"@);
            &&& per is None ==> line.period is None
            &&& per is Some ==> (line.period matches Some(pp) && date_is(pp.start, date_at_read(vs, per, "StartDateTime"@))
                && date_is(pp.end, date_at_read(vs, per, "EndDateTime"@)))
            &&& acs_appended(vs, Seq::empty(), line.allowances@, line_acs_read(vs, ks, false))
            &&& acs_appended(vs, Seq::empty(), line.charges@, line_acs_read(vs, ks, true))
            &&& match text_under(vs, adr, "IssuerAssignedID"@) {
                Some(id) => line.invoiced_object matches Some(o) && o.value@ == id && opt_text(o.scheme) == text_under(
                    vs,
                    adr,
                    "ReferenceTypeCode"@,
                ) && opt_code(line.invoiced_object_code) == text_under(vs, adr, "TypeCode"@),
                None => line.invoiced_object is None && line.invoiced_object_code is None,
            }
            &&& opt_text(line.accounting_reference) == text_under(vs, named_child(vs, s, "ReceivableSpecifiedTradeAccountingAccount"@), "ID"@)
        },
        None => line.allowances@.len() == 0 && line.charges@.len() == 0 && line.period is None
            && line.accounting_reference is None && line.invoiced_object is None && line.invoiced_object_code is None,
    }
}

/// Invoice line from an `IncludedSupplyChainTradeLineItem` node. A missing
/// line tax is an empty code, not SST or `S`.
#[verifier::rlimit(60)]
pub fn read_line(doc: &Vec<XmlNode>, node: usize, profile: Profile, malformed: &mut Vec<String>) -> (r: Line)
    requires
        node < doc.len(),
    ensures
        line_head_read(node_views(doc@), node as int, profile, r),
        line_rest_read(node_views(doc@), node as int, r),
{
    let ghost vs = node_views(doc@);
    assert(vs.len() == doc@.len());
    let assoc = child(doc, node, "AssociatedDocumentLineDocument");
    let id = text_or_empty(opt_child_text(doc, assoc, "LineID"));
    let product = child(doc, node, "SpecifiedTradeProduct");
    let name = text_or_empty(opt_child_text(doc, product, "Name"));
    let st = child(doc, node, "SpecifiedLineTradeSettlement");
    let net = match opt_child(doc, st, "SpecifiedTradeSettlementLineMonetarySummation") {
        Some(sum) => match child_amount(doc, sum, "LineTotalAmount", malformed, "CII-line") {
            Some(a) => a,
            None => InvoiceAmount::zero(),
        },
        None => InvoiceAmount::zero(),
    };
    let tax = line_tax(doc, opt_child(doc, st, "ApplicableTradeTax"), profile);
    let mut line = Line::new(id.as_str(), name.as_str(), net, tax);
    match opt_child(doc, child(doc, node, "SpecifiedLineTradeDelivery"), "BilledQuantity") {
        Some(q) => {
            match text_of(doc, q) {
                Some(t) => {
                    line.quantity = match Quantity::parse(t.as_str()) {
                        Ok(x) => Some(x),
                        Err(_) => None,
                    };
                },
                None => {},
            }
            line.unit = code_of(attribute(doc, q, "unitCode"));
        },
        None => {},
    }
    match child(doc, node, "SpecifiedLineTradeAgreement") {
        Some(agr) => read_line_price(doc, &mut line, agr),
        None => {},
    }
    match product {
        Some(p) => read_line_product(doc, &mut line, p),
        None => {},
    }
    line.note = opt_child_text(doc, opt_child(doc, assoc, "IncludedNote"), "Content");
    match st {
        Some(s) => read_line_settlement(doc, &mut line, s, malformed),
        None => {},
    }
    line
}

/// A tax breakdown row is what a CII `ApplicableTradeTax` node with a
/// category code reads as.
pub open spec fn tax_row_read(vs: Seq<XmlNodeView>, node: int, profile: Profile, row: TaxBreakdown) -> bool {
    let code = child_text_spec(vs, node, "CategoryCode"@).unwrap();
    let system = if profile == Profile::PintMy && is_pint_my_category(code) { TaxSystem::Sst } else { TaxSystem::Vat };
    &&& row.category@ == code
    &&& row.system == system
    &&& row.scheme@ == wire_scheme_of(profile, system, code)
    &&& opt_percent(row.rate) == parsed_opt(child_text_spec(vs, node, "RateApplicablePercent"@))
    &&& taxable_read(row.taxable, amount_read(vs, node, "BasisAmount"@))
    &&& taxable_read(row.tax, amount_read(vs, node, "CalculatedAmount"@))
    &&& opt_text(row.exemption_reason) == child_text_spec(vs, node, "ExemptionReason"@)
    &&& opt_code(row.exemption_code) == child_text_spec(vs, node, "ExemptionReasonCode"@)
}

/// Tax breakdown row from an `ApplicableTradeTax` node; a row without a
/// category code is skipped.
pub fn read_tax(doc: &Vec<XmlNode>, node: usize, profile: Profile, malformed: &mut Vec<String>) -> (r: Option<TaxBreakdown>)
    requires
        node < doc.len(),
    ensures
        child_text_spec(node_views(doc@), node as int, "CategoryCode"@) is None <==> r is None,
        r matches Some(row) ==> tax_row_read(node_views(doc@), node as int, profile, row),
{
    let code = match child_text(doc, node, "CategoryCode") {
        Some(c) => c,
        None => {
            return None;
        },
    };
    let percent = decimal_of(child_text(doc, node, "RateApplicablePercent"));
    let system = if profile == Profile::PintMy && pint_my_category(code.as_str()) {
        TaxSystem::Sst
    } else {
        TaxSystem::Vat
    };
    let taxable = match child_amount(doc, node, "BasisAmount", malformed, "CII-tax") {
        Some(a) => a,
        None => InvoiceAmount::zero(),
    };
    let tax = match child_amount(doc, node, "CalculatedAmount", malformed, "CII-tax") {
        Some(a) => a,
        None => InvoiceAmount::zero(),
    };
    Some(
        TaxBreakdown {
            system,
            scheme: owned(wire_scheme(profile, system, code.as_str())),
            category: Code::new(code.as_str()),
            rate: percent,
            taxable,
            tax,
            exemption_reason: child_text(doc, node, "ExemptionReason"),
            exemption_code: code_of(child_text(doc, node, "ExemptionReasonCode")),
        },
    )
}

/// Document totals from a monetary summation node; CII carries no allowance
/// or charge totals and no accounting-currency tax total here.
pub fn read_totals(doc: &Vec<XmlNode>, node: usize, malformed: &mut Vec<String>) -> (r: DocumentTotals)
    requires
        node < doc.len(),
    ensures
        amount_dec(r.line_net) == amount_read(node_views(doc@), node as int, "LineTotalAmount"@),
        amount_dec(r.without_tax) == amount_read(node_views(doc@), node as int, "TaxBasisTotalAmount"@),
        amount_dec(r.tax_total) == amount_read(node_views(doc@), node as int, "TaxTotalAmount"@),
        amount_dec(r.with_tax) == amount_read(node_views(doc@), node as int, "GrandTotalAmount"@),
        amount_dec(r.paid) == amount_read(node_views(doc@), node as int, "TotalPrepaidAmount"@),
        amount_dec(r.rounding) == amount_read(node_views(doc@), node as int, "RoundingAmount"@),
        amount_dec(r.payable) == amount_read(node_views(doc@), node as int, "DuePayableAmount"@),
        r.allowance_total is None,
        r.charge_total is None,
        r.tax_total_accounting is None,
{
    let p = "CII-totals";
    let line_net = child_amount(doc, node, "LineTotalAmount", malformed, p);
    let without_tax = child_amount(doc, node, "TaxBasisTotalAmount", malformed, p);
    let tax_total = child_amount(doc, node, "TaxTotalAmount", malformed, p);
    let with_tax = child_amount(doc, node, "GrandTotalAmount", malformed, p);
    let paid = child_amount(doc, node, "TotalPrepaidAmount", malformed, p);
    let rounding = child_amount(doc, node, "RoundingAmount", malformed, p);
    let payable = child_amount(doc, node, "DuePayableAmount", malformed, p);
    DocumentTotals {
        line_net,
        allowance_total: None,
        charge_total: None,
        without_tax,
        tax_total,
        tax_total_accounting: None,
        with_tax,
        paid,
        rounding,
        payable,
    }
}


/// First child with the local name of an optional node.
pub open spec fn child_of(vs: Seq<XmlNodeView>, p: Option<int>, name: Seq<char>) -> Option<int> {
    match p {
        Some(i) => named_child(vs, i, name),
        None => None,
    }
}

/// Text of the first child with the local name of an optional node.
pub open spec fn text_under(vs: Seq<XmlNodeView>, p: Option<int>, name: Seq<char>) -> Option<Seq<char>> {
    match p {
        Some(i) => child_text_spec(vs, i, name),
        None => None,
    }
}

/// Specification identifier (BT-24) of a CII document.
pub open spec fn cii_spec_id(vs: Seq<XmlNodeView>, root: int) -> Option<Seq<char>> {
    text_under(
        vs,
        child_of(vs, named_child(vs, root, "ExchangedDocumentContext"@), "GuidelineSpecifiedDocumentContextParameter"@),
        "ID"@,
    )
}

/// Document type code of a CII document.
pub open spec fn cii_type_code(vs: Seq<XmlNodeView>, root: int) -> Option<Seq<char>> {
    text_under(vs, named_child(vs, root, "ExchangedDocument"@), "TypeCode"@)
}

/// A credit note type code makes a credit note; anything else leaves an invoice.
pub open spec fn kind_of_type_code(tc: Option<Seq<char>>) -> DocumentKind {
    match tc {
        Some(c) => if listed_exact(uncl_1001_credit_note_spec(), c) {
            DocumentKind::CreditNote
        } else {
            DocumentKind::Invoice
        },
        None => DocumentKind::Invoice,
    }
}

/// Kind, number, currency, profile and specification id as a CII document gives them.
#[verifier::opaque]
pub open spec fn cii_header_matches(vs: Seq<XmlNodeView>, root: int, inv: Invoice) -> bool {
    &&& inv.number@ == or_empty(text_under(vs, named_child(vs, root, "ExchangedDocument"@), "ID"@))
    &&& inv.currency@ == or_empty(
        text_under(
            vs,
            child_of(vs, named_child(vs, root, "SupplyChainTradeTransaction"@), "ApplicableHeaderTradeSettlement"@),
            "InvoiceCurrencyCode"@,
        ),
    )
    &&& inv.profile == profile_of_id(cii_spec_id(vs, root))
    &&& match cii_spec_id(vs, root) {
        Some(t) => inv.specification_id matches Some(s) && s@ == t,
        None => inv.specification_id is None,
    }
    &&& inv.kind == kind_of_type_code(cii_type_code(vs, root))
}

/// What the header says survives changes that keep the header.
pub proof fn lemma_cii_header_kept(vs: Seq<XmlNodeView>, root: int, a: Invoice, b: Invoice)
    requires
        same_header(a, b),
        cii_header_matches(vs, root, b),
    ensures
        cii_header_matches(vs, root, a),
{
    reveal(cii_header_matches);
}

fn copy_text(s: &Option<String>) -> (r: Option<String>)
    ensures
        s is None <==> r is None,
        s matches Some(x) ==> (r matches Some(y) && y@ == x@),
{
    match s {
        Some(x) => Some(owned(x.as_str())),
        None => None,
    }
}

/// A party read where its node is missing: a party with no name and nothing
/// else.
pub open spec fn empty_party(p: Party) -> bool {
    &&& p.name@ == Seq::<char>::empty()
    &&& p.address is None && p.contact is None && p.trading_name is None && p.legal_registration is None
    &&& p.identifiers@.len() == 0 && p.vat_identifier is None && p.tax_registration is None
    &&& p.electronic_address is None && p.party_taxes@.len() == 0 && p.additional_legal is None
}

/// A party read from an optional node: as the node reads, or empty.
pub open spec fn opt_party_read(vs: Seq<XmlNodeView>, n: Option<int>, p: Party) -> bool {
    match n {
        Some(i) => cii_party_read(vs, i, p),
        None => empty_party(p),
    }
}

/// The seller and buyer nodes of a CII document.
pub open spec fn cii_party_node(vs: Seq<XmlNodeView>, root: int, name: Seq<char>) -> Option<int> {
    child_of(vs, child_of(vs, named_child(vs, root, "SupplyChainTradeTransaction"@), "ApplicableHeaderTradeAgreement"@), name)
}

pub(crate) fn no_party() -> (r: Party)
    ensures
        empty_party(r),
{
    let r = Party::new("", "");
    proof {
        reveal_strlit("");
        assert(""@ =~= Seq::<char>::empty());
        assert(blank(""@));
        assert(r.name@ =~= Seq::<char>::empty());
    }
    r
}

fn header_parties(doc: &Vec<XmlNode>, tx: Option<usize>) -> (r: (Party, Party))
    requires
        tx matches Some(i) ==> i < doc.len(),
    ensures
        opt_party_read(node_views(doc@), child_of(node_views(doc@), child_of(node_views(doc@), opt_int(tx), "ApplicableHeaderTradeAgreement"@), "SellerTradeParty"@), r.0),
        opt_party_read(node_views(doc@), child_of(node_views(doc@), child_of(node_views(doc@), opt_int(tx), "ApplicableHeaderTradeAgreement"@), "BuyerTradeParty"@), r.1),
{
    let ghost vs = node_views(doc@);
    let agreement = opt_child(doc, tx, "ApplicableHeaderTradeAgreement");
    assert(opt_int(agreement) == child_of(vs, opt_int(tx), "ApplicableHeaderTradeAgreement"@));
    let sn = opt_child(doc, agreement, "SellerTradeParty");
    assert(opt_int(sn) == child_of(vs, opt_int(agreement), "SellerTradeParty"@));
    let seller = match sn {
        Some(n) => read_party(doc, n),
        None => no_party(),
    };
    let bn = opt_child(doc, agreement, "BuyerTradeParty");
    assert(opt_int(bn) == child_of(vs, opt_int(agreement), "BuyerTradeParty"@));
    let buyer = match bn {
        Some(n) => read_party(doc, n),
        None => no_party(),
    };
    (seller, buyer)
}

#[verifier::rlimit(100)]
fn spec_id_and_profile(doc: &Vec<XmlNode>, root: usize) -> (r: (Option<String>, Profile))
    requires
        root < doc.len(),
    ensures
        match cii_spec_id(node_views(doc@), root as int) {
            Some(t) => r.0 matches Some(s) && s@ == t,
            None => r.0 is None,
        },
        r.1 == profile_of_id(cii_spec_id(node_views(doc@), root as int)),
{
    let ghost vs = node_views(doc@);
    let ctx = child(doc, root, "ExchangedDocumentContext");
    let g = opt_child(doc, ctx, "GuidelineSpecifiedDocumentContextParameter");
    assert(opt_int(g) == child_of(vs, named_child(vs, root as int, "ExchangedDocumentContext"@), "GuidelineSpecifiedDocumentContextParameter"@));
    let spec = opt_child_text(doc, g, "ID");
    let profile = match &spec {
        Some(id) => match Profile::for_specification_id(id.as_str()) {
            ProfileLookup::Profile(p) => p,
            _ => Profile::Unknown,
        },
        None => Profile::Unknown,
    };
    (spec, profile)
}

fn header_texts(doc: &Vec<XmlNode>, root: usize) -> (r: (String, String, Option<String>))
    requires
        root < doc.len(),
    ensures
        r.0@ == or_empty(text_under(node_views(doc@), named_child(node_views(doc@), root as int, "ExchangedDocument"@), "ID"@)),
        r.1@ == or_empty(
            text_under(
                node_views(doc@),
                child_of(node_views(doc@), named_child(node_views(doc@), root as int, "SupplyChainTradeTransaction"@), "ApplicableHeaderTradeSettlement"@),
                "InvoiceCurrencyCode"@,
            ),
        ),
        match cii_type_code(node_views(doc@), root as int) {
            Some(t) => r.2 matches Some(s) && s@ == t,
            None => r.2 is None,
        },
{
    let ghost vs = node_views(doc@);
    let doc_el = child(doc, root, "ExchangedDocument");
    let number = text_or_empty(opt_child_text(doc, doc_el, "ID"));
    let type_code = opt_child_text(doc, doc_el, "TypeCode");
    let tx = child(doc, root, "SupplyChainTradeTransaction");
    let settlement = opt_child(doc, tx, "ApplicableHeaderTradeSettlement");
    assert(opt_int(settlement) == child_of(vs, named_child(vs, root as int, "SupplyChainTradeTransaction"@), "ApplicableHeaderTradeSettlement"@));
    let currency = text_or_empty(opt_child_text(doc, settlement, "InvoiceCurrencyCode"));
    (number, currency, type_code)
}

fn kind_for(type_code: &Option<String>, malformed: &mut Vec<String>) -> (r: DocumentKind)
    ensures
        r == kind_of_type_code(match type_code {
            Some(s) => Some(s@),
            None => None,
        }),
{
    match type_code {
        Some(c) => {
            if credit_note_type(c.as_str()) {
                DocumentKind::CreditNote
            } else {
                if !invoice_type(c.as_str()) {
                    malformed.push(concat("ExchangedDocument/TypeCode: ", c.as_str()));
                }
                DocumentKind::Invoice
            }
        },
        None => {
            malformed.push(owned("ExchangedDocument/TypeCode missing"));
            DocumentKind::Invoice
        },
    }
}

/// Type code, issue date, notes and lines agree.
pub open spec fn same_body(a: Invoice, b: Invoice) -> bool {
    a.type_code == b.type_code && a.issue_date == b.issue_date && a.notes@ == b.notes@ && a.lines@ == b.lines@
        && a.seller == b.seller && a.buyer == b.buyer
}

/// The issue date a CII document gives.
pub open spec fn cii_issue_date(vs: Seq<XmlNodeView>, root: int) -> Option<(int, int, int)> {
    date_at_read(vs, named_child(vs, root, "ExchangedDocument"@), "IssueDateTime"@)
}

fn read_cii_header(doc: &Vec<XmlNode>, root: usize, malformed: &mut Vec<String>) -> (r: Invoice)
    requires
        root < doc.len(),
    ensures
        cii_header_matches(node_views(doc@), root as int, r),
        opt_party_read(node_views(doc@), cii_party_node(node_views(doc@), root as int, "SellerTradeParty"@), r.seller),
        opt_party_read(node_views(doc@), cii_party_node(node_views(doc@), root as int, "BuyerTradeParty"@), r.buyer),
        opt_code(r.type_code) == cii_type_code(node_views(doc@), root as int),
        date_is(r.issue_date, cii_issue_date(node_views(doc@), root as int)),
        r.notes@.len() == 0 && r.lines@.len() == 0,
{
    let (spec, profile) = spec_id_and_profile(doc, root);
    let (number, currency, type_code) = header_texts(doc, root);
    let doc_el = child(doc, root, "ExchangedDocument");
    let issue_date = date_at(doc, doc_el, "IssueDateTime", malformed);
    let (seller, buyer) = header_parties(doc, child(doc, root, "SupplyChainTradeTransaction"));
    let kind = kind_for(&type_code, malformed);
    let mut invoice = Invoice::blank(profile, number.as_str(), currency.as_str(), seller, buyer);
    invoice.specification_id = spec;
    invoice.issue_date = issue_date;
    invoice.type_code = code_of(type_code);
    invoice.kind = kind;
    proof {
        reveal(cii_header_matches);
    }
    invoice
}

/// The notes that `IncludedNote` nodes read as: for each with content, the
/// content and the subject code.
pub open spec fn cii_notes_read(vs: Seq<XmlNodeView>, ks: Seq<int>) -> Seq<(Seq<char>, Option<Seq<char>>)>
    decreases ks.len(),
{
    if ks.len() == 0 {
        Seq::empty()
    } else {
        match child_text_spec(vs, ks.last(), "Content"@) {
            Some(t) => cii_notes_read(vs, ks.drop_last()).push((t, child_text_spec(vs, ks.last(), "SubjectCode"@))),
            None => cii_notes_read(vs, ks.drop_last()),
        }
    }
}

/// The notes read from the exchanged document node, if any.
pub open spec fn doc_notes(doc: Seq<XmlNode>, root: int) -> Seq<(Seq<char>, Option<Seq<char>>)> {
    match named_child(node_views(doc), root, "ExchangedDocument"@) {
        Some(d) => cii_notes_read(node_views(doc), kids_of(doc, d, "IncludedNote"@)),
        None => Seq::empty(),
    }
}

/// The line item nodes of the transaction, if any.
pub open spec fn line_nodes(doc: Seq<XmlNode>, root: int) -> Seq<int> {
    match named_child(node_views(doc), root, "SupplyChainTradeTransaction"@) {
        Some(tx) => kids_of(doc, tx, "IncludedSupplyChainTradeLineItem"@),
        None => Seq::empty(),
    }
}

fn read_notes_and_lines(doc: &Vec<XmlNode>, root: usize, invoice: &mut Invoice, malformed: &mut Vec<String>)
    requires
        root < doc.len(),
    ensures
        same_header(*final(invoice), *old(invoice)),
        final(invoice).type_code == old(invoice).type_code && final(invoice).issue_date == old(invoice).issue_date,
        final(invoice).seller == old(invoice).seller && final(invoice).buyer == old(invoice).buyer,
        ({
            let vs = node_views(doc@);
            let ns = doc_notes(doc@, root as int);
            let ls = line_nodes(doc@, root as int);
            let n0 = old(invoice).notes@;
            let l0 = old(invoice).lines@;
            let bp = text_under(
                vs,
                child_of(vs, named_child(vs, root as int, "ExchangedDocumentContext"@), "BusinessProcessSpecifiedDocumentContextParameter"@),
                "ID"@,
            );
            &&& final(invoice).notes@.len() == n0.len() + ns.len()
            &&& forall|k: int| #![trigger final(invoice).notes@[k]] 0 <= k < n0.len() ==> final(invoice).notes@[k] == n0[k]
            &&& forall|k: int| #![trigger ns[k]] 0 <= k < ns.len() ==> final(invoice).notes@[n0.len() + k].text@ == ns[k].0 && opt_code(
                final(invoice).notes@[n0.len() + k].subject,
            ) == ns[k].1
            &&& final(invoice).lines@.len() == l0.len() + ls.len()
            &&& forall|k: int| #![trigger final(invoice).lines@[k]] 0 <= k < l0.len() ==> final(invoice).lines@[k] == l0[k]
            &&& forall|k: int| #![trigger ls[k]] 0 <= k < ls.len() ==> line_head_read(vs, ls[k], old(invoice).profile, final(invoice).lines@[l0.len() + k])
                && line_rest_read(vs, ls[k], final(invoice).lines@[l0.len() + k])
            &&& bp is Some ==> opt_text(final(invoice).business_process) == bp
            &&& bp is None ==> final(invoice).business_process == old(invoice).business_process
        }),
{
    let ghost vs = node_views(doc@);
    let ghost n0 = invoice.notes@;
    let ghost l0 = invoice.lines@;
    let profile = invoice.profile;
    match child(doc, root, "ExchangedDocument") {
        Some(d) => {
            let notes = children(doc, d, "IncludedNote");
            let ghost ks = kids_of(doc@, d as int, "IncludedNote"@);
            let mut i: usize = 0;
            assert(ks.take(0) =~= Seq::<int>::empty());
            while i < notes.len()
                invariant
                    i <= notes.len(),
                    vs == node_views(doc@),
                    notes@.len() == ks.len(),
                    forall|k: int| 0 <= k < notes@.len() ==> notes@[k] as int == ks[k],
                    forall|k: int| 0 <= k < notes@.len() ==> notes@[k] < doc.len(),
                    same_header(*invoice, *old(invoice)),
                    invoice.type_code == old(invoice).type_code && invoice.issue_date == old(invoice).issue_date,
                    invoice.seller == old(invoice).seller && invoice.buyer == old(invoice).buyer,
                    invoice.lines@ == l0,
                    invoice.business_process == old(invoice).business_process,
                    invoice.notes@.len() == n0.len() + cii_notes_read(vs, ks.take(i as int)).len(),
                    forall|k: int| #![trigger invoice.notes@[k]] 0 <= k < n0.len() ==> invoice.notes@[k] == n0[k],
                    forall|k: int| #![trigger cii_notes_read(vs, ks.take(i as int))[k]] 0 <= k < cii_notes_read(vs, ks.take(i as int)).len()
                        ==> invoice.notes@[n0.len() + k].text@ == cii_notes_read(vs, ks.take(i as int))[k].0 && opt_code(
                        invoice.notes@[n0.len() + k].subject,
                    ) == cii_notes_read(vs, ks.take(i as int))[k].1,
                decreases notes.len() - i,
            {
                assert(ks.take(i + 1).drop_last() =~= ks.take(i as int));
                match child_text(doc, notes[i], "Content") {
                    Some(text) => {
                        let subject = code_of(child_text(doc, notes[i], "SubjectCode"));
                        invoice.notes.push(InvoiceNote { subject, text });
                    },
                    None => {},
                }
                i = i + 1;
            }
            assert(ks.take(ks.len() as int) =~= ks);
        },
        None => {},
    }
    let ghost n1 = invoice.notes@;
    match child(doc, root, "SupplyChainTradeTransaction") {
        Some(tx) => {
            let lines = children(doc, tx, "IncludedSupplyChainTradeLineItem");
            let ghost ks = kids_of(doc@, tx as int, "IncludedSupplyChainTradeLineItem"@);
            let mut l: usize = 0;
            while l < lines.len()
                invariant
                    l <= lines.len(),
                    vs == node_views(doc@),
                    lines@.len() == ks.len(),
                    forall|k: int| 0 <= k < lines@.len() ==> lines@[k] as int == ks[k],
                    forall|k: int| 0 <= k < lines@.len() ==> lines@[k] < doc.len(),
                    same_header(*invoice, *old(invoice)),
                    invoice.type_code == old(invoice).type_code && invoice.issue_date == old(invoice).issue_date,
                    invoice.seller == old(invoice).seller && invoice.buyer == old(invoice).buyer,
                    profile == old(invoice).profile,
                    invoice.notes@ == n1,
                    invoice.business_process == old(invoice).business_process,
                    invoice.lines@.len() == l0.len() + l,
                    forall|k: int| #![trigger invoice.lines@[k]] 0 <= k < l0.len() ==> invoice.lines@[k] == l0[k],
                    forall|k: int| #![trigger ks[k]] 0 <= k < l ==> line_head_read(vs, ks[k], profile, invoice.lines@[l0.len() + k])
                        && line_rest_read(vs, ks[k], invoice.lines@[l0.len() + k]),
                decreases lines.len() - l,
            {
                invoice.lines.push(read_line(doc, lines[l], profile, malformed));
                l = l + 1;
            }
        },
        None => {},
    }
    let bp = opt_child_text(
        doc,
        opt_child(doc, child(doc, root, "ExchangedDocumentContext"), "BusinessProcessSpecifiedDocumentContextParameter"),
        "ID",
    );
    if bp.is_some() {
        invoice.business_process = bp;
    }
}

fn reference_under(doc: &Vec<XmlNode>, p: usize, name: &str, field: &str) -> (r: Option<DocumentReference>)
    requires
        p < doc.len(),
    ensures
        ref_view(r) == text_under(node_views(doc@), named_child(node_views(doc@), p as int, name@), field@),
{
    reference_of(opt_child_text(doc, child(doc, p, name), field))
}

#[verifier::rlimit(40)]
fn read_agreement(doc: &Vec<XmlNode>, ag: usize, invoice: &mut Invoice)
    requires
        ag < doc.len(),
    ensures
        same_header(*final(invoice), *old(invoice)),
        same_body(*final(invoice), *old(invoice)),
{
    invoice.buyer_reference = reference_of(child_text(doc, ag, "BuyerReference"));
    invoice.tax_representative = match child(doc, ag, "SellerTaxRepresentativeTradeParty") {
        Some(n) => Some(
            TaxRepresentative {
                name: text_or_empty(child_text(doc, n, "Name")),
                vat_identifier: opt_schemed(doc, opt_child(doc, child(doc, n, "SpecifiedTaxRegistration"), "ID")),
                address: match child(doc, n, "PostalTradeAddress") {
                    Some(a) => Some(read_postal(doc, a)),
                    None => None,
                },
            },
        ),
        None => None,
    };
    invoice.sales_order = reference_under(doc, ag, "SellerOrderReferencedDocument", "IssuerAssignedID");
    invoice.purchase_order = reference_under(doc, ag, "BuyerOrderReferencedDocument", "IssuerAssignedID");
    invoice.contract = reference_under(doc, ag, "ContractReferencedDocument", "IssuerAssignedID");
    invoice.project = reference_under(doc, ag, "SpecifiedProcuringProject", "ID");
    let adrs = children(doc, ag, "AdditionalReferencedDocument");
    let mut a: usize = 0;
    while a < adrs.len()
        invariant
            a <= adrs.len(),
            forall|k: int| 0 <= k < adrs@.len() ==> adrs@[k] < doc.len(),
            same_header(*invoice, *old(invoice)),
            same_body(*invoice, *old(invoice)),
        decreases adrs.len() - a,
    {
        let adr = adrs[a];
        let id = text_or_empty(child_text(doc, adr, "IssuerAssignedID"));
        let dtype = child_text(doc, adr, "TypeCode");
        let (is_object, is_tender) = match &dtype {
            Some(t) => (str_eq(t.as_str(), "130"), str_eq(t.as_str(), "50")),
            None => (false, false),
        };
        if is_object {
            invoice.invoiced_object = Some(
                Identifier { value: id, scheme: child_text(doc, adr, "ReferenceTypeCode"), scheme_version: None },
            );
        } else if is_tender {
            invoice.tender = Some(DocumentReference(id));
        } else {
            invoice.supporting_documents.push(
                SupportingDocument {
                    id: DocumentReference(id),
                    description: child_text(doc, adr, "Name"),
                    uri: child_text(doc, adr, "URIID"),
                    attachment: None,
                },
            );
        }
        a = a + 1;
    }
}

/// The delivery fields that the ship-to party and the date read as.
pub open spec fn delivery_fields(vs: Seq<XmlNodeView>, date: Option<(int, int, int)>, ship: Option<int>, d: Delivery) -> bool {
    &&& date_is(d.date, date)
    &&& opt_text(d.name) == text_under(vs, ship, "Name"@)
    &&& match child_of(vs, ship, "PostalTradeAddress"@) {
        Some(a) => d.address matches Some(x) && postal_read(vs, a, x),
        None => d.address is None,
    }
    &&& match ship {
        Some(n) => match named_child(vs, n, "ID"@) {
            Some(id) => d.location_id matches Some(x) && schemed_read(vs[id], x),
            None => opt_schemed_read(vs, named_child(vs, n, "GlobalID"@), d.location_id),
        },
        None => d.location_id is None,
    }
}

/// What the header delivery node reads as, in the invoice.
pub open spec fn delivery_read(vs: Seq<XmlNodeView>, del: int, inv: Invoice, before: Invoice) -> bool {
    let date = date_at_read(vs, named_child(vs, del, "ActualDeliverySupplyChainEvent"@), "OccurrenceDateTime"@);
    let ship = named_child(vs, del, "ShipToTradeParty"@);
    &&& ref_view(inv.despatch) == text_under(vs, named_child(vs, del, "DespatchAdviceReferencedDocument"@), "IssuerAssignedID"@)
    &&& ref_view(inv.receiving_advice) == text_under(
        vs,
        named_child(vs, del, "ReceivingAdviceReferencedDocument"@),
        "IssuerAssignedID"@,
    )
    &&& (date is None && ship is None ==> inv.delivery == before.delivery)
    &&& (date is Some || ship is Some ==> inv.delivery is Some && delivery_fields(vs, date, ship, inv.delivery.unwrap()))
}

fn read_delivery(doc: &Vec<XmlNode>, del: usize, invoice: &mut Invoice, malformed: &mut Vec<String>)
    requires
        del < doc.len(),
    ensures
        same_header(*final(invoice), *old(invoice)),
        same_body(*final(invoice), *old(invoice)),
        delivery_read(node_views(doc@), del as int, *final(invoice), *old(invoice)),
{
    let date = date_at(doc, child(doc, del, "ActualDeliverySupplyChainEvent"), "OccurrenceDateTime", malformed);
    let ship = child(doc, del, "ShipToTradeParty");
    if date.is_some() || ship.is_some() {
        let location = match ship {
            Some(n) => match child(doc, n, "ID") {
                Some(id) => Some(schemed(doc, id)),
                None => opt_schemed(doc, child(doc, n, "GlobalID")),
            },
            None => None,
        };
        invoice.delivery = Some(
            Delivery {
                name: opt_child_text(doc, ship, "Name"),
                location_id: location,
                date,
                address: match opt_child(doc, ship, "PostalTradeAddress") {
                    Some(a) => Some(read_postal(doc, a)),
                    None => None,
                },
            },
        );
    }
    invoice.despatch = reference_under(doc, del, "DespatchAdviceReferencedDocument", "IssuerAssignedID");
    invoice.receiving_advice = reference_under(doc, del, "ReceivingAdviceReferencedDocument", "IssuerAssignedID");
}

#[verifier::rlimit(40)]
/// The rows nodes of `ks` with a category code, in order.
pub open spec fn coded_rows(vs: Seq<XmlNodeView>, ks: Seq<int>) -> Seq<int>
    decreases ks.len(),
{
    if ks.len() == 0 {
        Seq::empty()
    } else if child_text_spec(vs, ks.last(), "CategoryCode"@) is Some {
        coded_rows(vs, ks.drop_last()).push(ks.last())
    } else {
        coded_rows(vs, ks.drop_last())
    }
}

/// The first `name` child text among the nodes of `ks`.
pub open spec fn first_text(vs: Seq<XmlNodeView>, ks: Seq<int>, name: Seq<char>) -> Option<Seq<char>>
    decreases ks.len(),
{
    if ks.len() == 0 {
        None
    } else {
        match first_text(vs, ks.drop_last(), name) {
            Some(t) => Some(t),
            None => child_text_spec(vs, ks.last(), name),
        }
    }
}

/// The first tax point date among the nodes of `ks`.
pub open spec fn first_date(vs: Seq<XmlNodeView>, ks: Seq<int>) -> Option<(int, int, int)>
    decreases ks.len(),
{
    if ks.len() == 0 {
        None
    } else {
        match first_date(vs, ks.drop_last()) {
            Some(t) => Some(t),
            None => date_at_read(vs, Some(ks.last()), "TaxPointDate"@),
        }
    }
}

fn read_settlement_tax(doc: &Vec<XmlNode>, st: usize, invoice: &mut Invoice, malformed: &mut Vec<String>)
    requires
        st < doc.len(),
    ensures
        same_header(*final(invoice), *old(invoice)),
        same_body(*final(invoice), *old(invoice)),
        ({
            let vs = node_views(doc@);
            let ks = kids_of(doc@, st as int, "ApplicableTradeTax"@);
            let rows = coded_rows(vs, ks);
            &&& final(invoice).tax_breakdown@.len() == rows.len()
            &&& forall|k: int| #![trigger final(invoice).tax_breakdown@[k]] 0 <= k < rows.len() ==> tax_row_read(
                vs,
                rows[k],
                old(invoice).profile,
                final(invoice).tax_breakdown@[k],
            )
            &&& old(invoice).tax_point_code is Some ==> final(invoice).tax_point_code == old(invoice).tax_point_code
            &&& old(invoice).tax_point_code is None ==> opt_code(final(invoice).tax_point_code) == first_text(vs, ks, "DueDateTypeCode"@)
            &&& old(invoice).tax_point_date is Some ==> final(invoice).tax_point_date == old(invoice).tax_point_date
            &&& old(invoice).tax_point_date is None ==> date_is(final(invoice).tax_point_date, first_date(vs, ks))
            &&& opt_text(final(invoice).buyer_accounting) == text_under(
                vs,
                named_child(vs, st as int, "ReceivableSpecifiedTradeAccountingAccount"@),
                "ID"@,
            )
            &&& named_child(vs, st as int, "SpecifiedTradeSettlementHeaderMonetarySummation"@) is None ==> final(invoice).totals == old(invoice).totals
            &&& named_child(vs, st as int, "SpecifiedTradeSettlementHeaderMonetarySummation"@) is Some ==> final(invoice).totals is Some
        }),
{
    let ghost vs = node_views(doc@);
    let profile = invoice.profile;
    let rows = children(doc, st, "ApplicableTradeTax");
    let ghost ks = kids_of(doc@, st as int, "ApplicableTradeTax"@);
    let mut breakdown: Vec<TaxBreakdown> = Vec::new();
    let mut i: usize = 0;
    assert(ks.take(0) =~= Seq::<int>::empty());
    while i < rows.len()
        invariant
            i <= rows.len(),
            vs == node_views(doc@),
            rows@.len() == ks.len(),
            forall|k: int| 0 <= k < rows@.len() ==> rows@[k] as int == ks[k],
            forall|k: int| 0 <= k < rows@.len() ==> rows@[k] < doc.len(),
            breakdown@.len() == coded_rows(vs, ks.take(i as int)).len(),
            forall|k: int| #![trigger breakdown@[k]] 0 <= k < breakdown@.len() ==> tax_row_read(vs, coded_rows(vs, ks.take(i as int))[k], profile, breakdown@[k]),
        decreases rows.len() - i,
    {
        assert(ks.take(i + 1).drop_last() =~= ks.take(i as int));
        match read_tax(doc, rows[i], profile, malformed) {
            Some(t) => {
                breakdown.push(t);
            },
            None => {},
        }
        i = i + 1;
    }
    assert(ks.take(ks.len() as int) =~= ks);
    invoice.tax_breakdown = breakdown;
    let ghost code0 = invoice.tax_point_code;
    let ghost date0 = invoice.tax_point_date;
    let mut j: usize = 0;
    assert(ks.take(0) =~= Seq::<int>::empty());
    while j < rows.len()
        invariant
            j <= rows.len(),
            vs == node_views(doc@),
            rows@.len() == ks.len(),
            forall|k: int| 0 <= k < rows@.len() ==> rows@[k] as int == ks[k],
            forall|k: int| 0 <= k < rows@.len() ==> rows@[k] < doc.len(),
            same_header(*invoice, *old(invoice)),
            same_body(*invoice, *old(invoice)),
            invoice.tax_breakdown@ == breakdown@,
            code0 is Some ==> invoice.tax_point_code == code0,
            code0 is None ==> opt_code(invoice.tax_point_code) == first_text(vs, ks.take(j as int), "DueDateTypeCode"@),
            date0 is Some ==> invoice.tax_point_date == date0,
            date0 is None ==> date_is(invoice.tax_point_date, first_date(vs, ks.take(j as int))),
            code0 == old(invoice).tax_point_code,
            date0 == old(invoice).tax_point_date,
            invoice.totals == old(invoice).totals,
        decreases rows.len() - j,
    {
        assert(ks.take(j + 1).drop_last() =~= ks.take(j as int));
        if invoice.tax_point_code.is_none() {
            invoice.tax_point_code = code_of(child_text(doc, rows[j], "DueDateTypeCode"));
        }
        if invoice.tax_point_date.is_none() {
            invoice.tax_point_date = date_at(doc, Some(rows[j]), "TaxPointDate", malformed);
        }
        j = j + 1;
    }
    assert(ks.take(ks.len() as int) =~= ks);
    invoice.buyer_accounting = opt_child_text(doc, child(doc, st, "ReceivableSpecifiedTradeAccountingAccount"), "ID");
    match child(doc, st, "SpecifiedTradeSettlementHeaderMonetarySummation") {
        Some(ms) => {
            invoice.totals = Some(read_totals(doc, ms, malformed));
        },
        None => {},
    }
}

#[verifier::rlimit(40)]
/// The account id of a CII creditor account node: its IBAN, else its
/// proprietary id.
pub open spec fn cii_account_id(vs: Seq<XmlNodeView>, a: int) -> Option<Seq<char>> {
    match child_text_spec(vs, a, "IBANID"@) {
        Some(x) => Some(x),
        None => child_text_spec(vs, a, "ProprietaryID"@),
    }
}

/// The creditor account nodes of `as_` with an account id, in order.
pub open spec fn accounts_with_id(vs: Seq<XmlNodeView>, as_: Seq<int>) -> Seq<int>
    decreases as_.len(),
{
    if as_.len() == 0 {
        Seq::empty()
    } else if cii_account_id(vs, as_.last()) is Some {
        accounts_with_id(vs, as_.drop_last()).push(as_.last())
    } else {
        accounts_with_id(vs, as_.drop_last())
    }
}

/// The creditor accounts of the payment means nodes `pms`, in order.
pub open spec fn all_accounts(doc: Seq<XmlNode>, pms: Seq<int>) -> Seq<int>
    decreases pms.len(),
{
    if pms.len() == 0 {
        Seq::empty()
    } else {
        all_accounts(doc, pms.drop_last()) + accounts_with_id(
            node_views(doc),
            kids_of(doc, pms.last(), "PayeePartyCreditorFinancialAccount"@),
        )
    }
}

/// A credit transfer is what a CII creditor account node reads as.
pub open spec fn cii_account_read(vs: Seq<XmlNodeView>, a: int, ct: CreditTransfer) -> bool {
    &&& Some(ct.account_id.value@) == cii_account_id(vs, a)
    &&& ct.account_id.scheme is None
    &&& opt_text(ct.account_name) == child_text_spec(vs, a, "AccountName"@)
    &&& ct.provider is None
}

/// The credit transfers read so far are those of the account nodes `sel`.
pub open spec fn accounts_match(vs: Seq<XmlNodeView>, sel: Seq<int>, cts: Seq<CreditTransfer>) -> bool {
    cts.len() == sel.len() && forall|k: int| #![trigger cts[k]] 0 <= k < cts.len() ==> cii_account_read(vs, sel[k], cts[k])
}

fn read_settlement_payment(doc: &Vec<XmlNode>, st: usize, invoice: &mut Invoice)
    requires
        st < doc.len(),
    ensures
        same_header(*final(invoice), *old(invoice)),
        same_body(*final(invoice), *old(invoice)),
        ({
            let vs = node_views(doc@);
            let pms = kids_of(doc@, st as int, "SpecifiedTradeSettlementPaymentMeans"@);
            let accs = all_accounts(doc@, pms);
            let remit = child_text_spec(vs, st as int, "PaymentReference"@);
            &&& pms.len() > 0 ==> (final(invoice).payment matches Some(p) && opt_code(p.means_code) == child_text_spec(
                vs,
                pms[0],
                "TypeCode"@,
            ) && opt_text(p.means_text) == child_text_spec(vs, pms[0], "Information"@) && opt_text(p.remittance) == remit
                && (accs.len() == 0 ==> p.means is None) && (accs.len() > 0 ==> (p.means matches Some(PaymentMeans::CreditTransfer(cts))
                && accounts_match(vs, accs, cts@))))
            &&& pms.len() == 0 && remit is Some ==> (final(invoice).payment matches Some(p) && p.means_code is None && p.means_text is None
                && opt_text(p.remittance) == remit && p.means is None)
            &&& pms.len() == 0 && remit is None ==> final(invoice).payment == old(invoice).payment
        }),
{
    let ghost vs = node_views(doc@);
    let pms = children(doc, st, "SpecifiedTradeSettlementPaymentMeans");
    let ghost ks = kids_of(doc@, st as int, "SpecifiedTradeSettlementPaymentMeans"@);
    if pms.len() > 0 {
        let first = pms[0];
        let mut accounts: Vec<CreditTransfer> = Vec::new();
        let mut i: usize = 0;
        assert(ks.take(0) =~= Seq::<int>::empty());
        while i < pms.len()
            invariant
                i <= pms.len(),
                vs == node_views(doc@),
                pms@.len() == ks.len(),
                forall|k: int| 0 <= k < pms@.len() ==> pms@[k] as int == ks[k],
                forall|k: int| 0 <= k < pms@.len() ==> pms@[k] < doc.len(),
                accounts_match(vs, all_accounts(doc@, ks.take(i as int)), accounts@),
            decreases pms.len() - i,
        {
            assert(ks.take(i + 1).drop_last() =~= ks.take(i as int));
            let accts = children(doc, pms[i], "PayeePartyCreditorFinancialAccount");
            let ghost aks = kids_of(doc@, pms@[i as int] as int, "PayeePartyCreditorFinancialAccount"@);
            let ghost base = all_accounts(doc@, ks.take(i as int));
            let mut j: usize = 0;
            assert(aks.take(0) =~= Seq::<int>::empty());
            assert(base + accounts_with_id(vs, aks.take(0)) =~= base);
            while j < accts.len()
                invariant
                    j <= accts.len(),
                    vs == node_views(doc@),
                    accts@.len() == aks.len(),
                    forall|k: int| 0 <= k < accts@.len() ==> accts@[k] as int == aks[k],
                    forall|k: int| 0 <= k < accts@.len() ==> accts@[k] < doc.len(),
                    accounts_match(vs, base + accounts_with_id(vs, aks.take(j as int)), accounts@),
                decreases accts.len() - j,
            {
                assert(aks.take(j + 1).drop_last() =~= aks.take(j as int));
                let ghost before = accounts@;
                let id = match child_text(doc, accts[j], "IBANID") {
                    Some(x) => Some(x),
                    None => child_text(doc, accts[j], "ProprietaryID"),
                };
                match id {
                    Some(x) => {
                        accounts.push(
                            CreditTransfer {
                                account_id: Identifier::new(x.as_str()),
                                account_name: child_text(doc, accts[j], "AccountName"),
                                provider: None,
                            },
                        );
                        assert(base + accounts_with_id(vs, aks.take(j + 1)) =~= (base + accounts_with_id(vs, aks.take(j as int))).push(aks[j as int]));
                    },
                    None => {
                        assert(base + accounts_with_id(vs, aks.take(j + 1)) =~= base + accounts_with_id(vs, aks.take(j as int)));
                    },
                }
                j = j + 1;
            }
            assert(aks.take(aks.len() as int) =~= aks);
            i = i + 1;
        }
        assert(ks.take(ks.len() as int) =~= ks);
        let means = if accounts.len() == 0 {
            None
        } else {
            Some(PaymentMeans::CreditTransfer(accounts))
        };
        invoice.payment = Some(
            PaymentInstructions {
                means_code: code_of(child_text(doc, first, "TypeCode")),
                means_text: child_text(doc, first, "Information"),
                remittance: child_text(doc, st, "PaymentReference"),
                means,
            },
        );
    } else {
        match child_text(doc, st, "PaymentReference") {
            Some(r) => {
                invoice.payment = Some(
                    PaymentInstructions { means_code: None, means_text: None, remittance: Some(r), means: None },
                );
            },
            None => {},
        }
    }
}

#[verifier::rlimit(40)]
fn read_settlement_rest(doc: &Vec<XmlNode>, st: usize, invoice: &mut Invoice, malformed: &mut Vec<String>)
    requires
        st < doc.len(),
    ensures
        same_header(*final(invoice), *old(invoice)),
        same_body(*final(invoice), *old(invoice)),
{
    match child(doc, st, "PayeeTradeParty") {
        Some(p) => {
            let identifier = match child(doc, p, "ID") {
                Some(id) => Some(schemed(doc, id)),
                None => opt_schemed(doc, child(doc, p, "GlobalID")),
            };
            invoice.payee = Some(
                Payee {
                    name: text_or_empty(child_text(doc, p, "Name")),
                    identifier,
                    legal_registration: opt_schemed(doc, opt_child(doc, child(doc, p, "SpecifiedLegalOrganization"), "ID")),
                },
            );
        },
        None => {},
    }
    match child(doc, st, "BillingSpecifiedPeriod") {
        Some(per) => {
            let start = date_at(doc, Some(per), "StartDateTime", malformed);
            let end = date_at(doc, Some(per), "EndDateTime", malformed);
            invoice.period = Some(Period { start, end });
        },
        None => {},
    }
    match child(doc, st, "SpecifiedTradePaymentTerms") {
        Some(pt) => {
            invoice.payment_terms = child_text(doc, pt, "Description");
            invoice.due_date = date_at(doc, Some(pt), "DueDateDateTime", malformed);
        },
        None => {},
    }
    let refs = children(doc, st, "InvoiceReferencedDocument");
    let mut i: usize = 0;
    while i < refs.len()
        invariant
            i <= refs.len(),
            forall|k: int| 0 <= k < refs@.len() ==> refs@[k] < doc.len(),
            same_header(*invoice, *old(invoice)),
            same_body(*invoice, *old(invoice)),
        decreases refs.len() - i,
    {
        match child_text(doc, refs[i], "IssuerAssignedID") {
            Some(id) => {
                invoice.preceding.push(PrecedingInvoice { reference: DocumentReference(id), issue_date: None });
            },
            None => {},
        }
        i = i + 1;
    }
    let acs = children(doc, st, "SpecifiedTradeAllowanceCharge");
    let mut c: usize = 0;
    while c < acs.len()
        invariant
            c <= acs.len(),
            forall|k: int| 0 <= k < acs@.len() ==> acs@[k] < doc.len(),
            same_header(*invoice, *old(invoice)),
            same_body(*invoice, *old(invoice)),
        decreases acs.len() - c,
    {
        let charge = is_true_indicator(doc, acs[c]);
        match child_amount(doc, acs[c], "ActualAmount", malformed, "CII-ac") {
            Some(amount) => {
                let row = AllowanceCharge {
                    amount,
                    base: None,
                    percent: None,
                    reason: child_text(doc, acs[c], "Reason"),
                    reason_code: None,
                    tax: None,
                };
                if charge {
                    invoice.document_charges.push(row);
                } else {
                    invoice.document_allowances.push(row);
                }
            },
            None => {},
        }
        c = c + 1;
    }
}

/// Whether a transaction child's local name is one this reader maps.
pub open spec fn mapped_tx_name(name: Seq<char>) -> bool {
    name == "IncludedSupplyChainTradeLineItem"@ || name == "ApplicableHeaderTradeAgreement"@
        || name == "ApplicableHeaderTradeDelivery"@ || name == "ApplicableHeaderTradeSettlement"@
}

/// Paths of the element children of `tx` among the first `upto` nodes that
/// this reader does not map, in document order.
pub open spec fn unmapped_tx_paths(vs: Seq<XmlNodeView>, tx: int, upto: int) -> Seq<Seq<char>>
    decreases upto,
{
    if upto <= 0 {
        Seq::empty()
    } else {
        let prev = unmapped_tx_paths(vs, tx, upto - 1);
        let n = vs[upto - 1];
        if n.element && n.parent == Some(vs[tx].id) && !mapped_tx_name(n.local) {
            prev.push("SupplyChainTradeTransaction/"@ + n.local)
        } else {
            prev
        }
    }
}

/// Paths of the transaction's element children that this reader does not map,
/// in document order.
pub fn unmapped_tx(doc: &Vec<XmlNode>, tx: usize) -> (r: Vec<String>)
    requires
        tx < doc.len(),
    ensures
        r@.len() == unmapped_tx_paths(node_views(doc@), tx as int, doc@.len() as int).len(),
        forall|i: int| 0 <= i < r@.len() ==> #[trigger] r@[i]@ == unmapped_tx_paths(node_views(doc@), tx as int, doc@.len() as int)[i],
{
    let ghost vs = node_views(doc@);
    let pid = doc[tx].id;
    let mut out: Vec<String> = Vec::new();
    let mut j: usize = 0;
    while j < doc.len()
        invariant
            j <= doc.len(),
            tx < doc.len(),
            vs == node_views(doc@),
            pid == vs[tx as int].id,
            out@.len() == unmapped_tx_paths(vs, tx as int, j as int).len(),
            forall|i: int| 0 <= i < out@.len() ==> #[trigger] out@[i]@ == unmapped_tx_paths(vs, tx as int, j as int)[i],
        decreases doc.len() - j,
    {
        let n = &doc[j];
        assert(vs[j as int] == doc@[j as int]@);
        if n.element && n.parent == Some(pid) {
            let l = n.local.as_str();
            if !(str_eq(l, "IncludedSupplyChainTradeLineItem") || str_eq(l, "ApplicableHeaderTradeAgreement")
                || str_eq(l, "ApplicableHeaderTradeDelivery") || str_eq(l, "ApplicableHeaderTradeSettlement")) {
                let m = concat("SupplyChainTradeTransaction/", l);
                out.push(m);
            }
        }
        j = j + 1;
    }
    out
}

/// The notes a CII document gives: content and subject code of each
/// `IncludedNote` with content.
pub open spec fn cii_doc_notes(vs: Seq<XmlNodeView>, root: int) -> Seq<(Seq<char>, Option<Seq<char>>)> {
    match named_child(vs, root, "ExchangedDocument"@) {
        Some(d) => cii_notes_read(vs, kids_in(vs, d, "IncludedNote"@)),
        None => Seq::empty(),
    }
}

/// The line item nodes of a CII document, in document order.
pub open spec fn cii_line_nodes(vs: Seq<XmlNodeView>, root: int) -> Seq<int> {
    match named_child(vs, root, "SupplyChainTradeTransaction"@) {
        Some(tx) => kids_in(vs, tx, "IncludedSupplyChainTradeLineItem"@),
        None => Seq::empty(),
    }
}

/// The seller and buyer of an invoice read from a CII document: each as its
/// trade party node reads, or empty where the node is missing.
pub open spec fn cii_parties_read(vs: Seq<XmlNodeView>, root: int, inv: Invoice) -> bool {
    &&& opt_party_read(vs, cii_party_node(vs, root, "SellerTradeParty"@), inv.seller)
    &&& opt_party_read(vs, cii_party_node(vs, root, "BuyerTradeParty"@), inv.buyer)
}

/// The type code, issue date, notes and lines of an invoice read from a CII
/// document: each note and each line read from its node, in document order.
pub open spec fn cii_body_read(vs: Seq<XmlNodeView>, root: int, inv: Invoice) -> bool {
    let ns = cii_doc_notes(vs, root);
    let ls = cii_line_nodes(vs, root);
    &&& opt_code(inv.type_code) == cii_type_code(vs, root)
    &&& date_is(inv.issue_date, cii_issue_date(vs, root))
    &&& inv.notes@.len() == ns.len()
    &&& forall|k: int| #![trigger ns[k]] 0 <= k < ns.len() ==> inv.notes@[k].text@ == ns[k].0 && opt_code(inv.notes@[k].subject) == ns[k].1
    &&& inv.lines@.len() == ls.len()
    &&& forall|k: int| #![trigger ls[k]] 0 <= k < ls.len() ==> line_head_read(vs, ls[k], inv.profile, inv.lines@[k])
        && line_rest_read(vs, ls[k], inv.lines@[k])
}

/// What reading a CII document gives: success exactly when the text has no
/// DTD, is within the size and nesting caps, parses, has a
/// `CrossIndustryInvoice` document element and a `SupplyChainTradeTransaction`;
/// then the header, type code, issue date, notes, lines, seller and buyer
/// follow the document.
pub open spec fn cii_read_result(xml: &str, r: Result<Read, FormatError>) -> bool {
    &&& r is Ok <==> {
        &&& !contains(lower_text(xml@), "<!doctype"@)
        &&& xml.len() <= MAX_INPUT_BYTES
        &&& depth_at(xml@, MAX_DEPTH as nat, xml@.len() as int) is Some
        &&& parsed_xml(xml@) is Ok
        &&& root_element_spec(parsed_xml(xml@)->Ok_0) matches Some(root)
        &&& parsed_xml(xml@)->Ok_0[root].local == "CrossIndustryInvoice"@
        &&& named_child(parsed_xml(xml@)->Ok_0, root, "SupplyChainTradeTransaction"@) is Some
    }
    &&& r matches Ok(rd) ==> cii_header_matches(parsed_xml(xml@)->Ok_0, root_element_spec(parsed_xml(xml@)->Ok_0)->0, rd.invoice)
        && cii_body_read(parsed_xml(xml@)->Ok_0, root_element_spec(parsed_xml(xml@)->Ok_0)->0, rd.invoice)
        && cii_parties_read(parsed_xml(xml@)->Ok_0, root_element_spec(parsed_xml(xml@)->Ok_0)->0, rd.invoice)
}

/// Read a CII `CrossIndustryInvoice`. A DTD, input over the size cap, nesting
/// over the depth cap, text that does not parse, another document element and
/// a missing `SupplyChainTradeTransaction` are refused; otherwise the invoice
/// comes back with the transaction children it does not map and the values it
/// could not read.
#[verifier::rlimit(100)]
pub fn read(xml: &str) -> (r: Result<Read, FormatError>)
    ensures
        cii_read_result(xml, r),
        contains(lower_text(xml@), "<!doctype"@) ==> r is Err,
        xml.len() > MAX_INPUT_BYTES ==> r is Err,
{
    match refuse_dtd(xml) {
        Err(e) => {
            return Err(e);
        },
        Ok(()) => {},
    }
    match refuse_oversize(xml) {
        Err(e) => {
            return Err(e);
        },
        Ok(()) => {},
    }
    match refuse_depth(xml) {
        Err(e) => {
            return Err(e);
        },
        Ok(()) => {},
    }
    let doc = match parse_xml(xml) {
        Ok(d) => d,
        Err(e) => {
            return Err(FormatError::Parse(concat("not well-formed CII: ", e.as_str())));
        },
    };
    let ghost vs = node_views(doc@);
    assert(parsed_xml(xml@)->Ok_0 == vs);
    let root = match root_element(&doc) {
        Some(r) => r,
        None => {
            return Err(FormatError::Parse(owned("not well-formed CII: no document element")));
        },
    };
    assert(root_element_spec(vs) == Some(root as int));
    let local = doc[root].local.as_str();
    assert(vs[root as int].local == local@);
    if !str_eq(local, "CrossIndustryInvoice") {
        return Err(FormatError::Parse(concat("CII document element must be CrossIndustryInvoice, not ", local)));
    }
    let tx = match child(&doc, root, "SupplyChainTradeTransaction") {
        Some(t) => t,
        None => {
            return Err(FormatError::Parse(owned("missing SupplyChainTradeTransaction")));
        },
    };
    let mut malformed: Vec<String> = Vec::new();
    let mut invoice = read_cii_header(&doc, root, &mut malformed);
    let ghost first = invoice;
    read_notes_and_lines(&doc, root, &mut invoice, &mut malformed);
    proof {
        assert(vs.len() == doc@.len());
        assert(doc_notes(doc@, root as int) == cii_doc_notes(vs, root as int));
        assert(line_nodes(doc@, root as int) == cii_line_nodes(vs, root as int));
        assert(invoice.notes@.len() == cii_doc_notes(vs, root as int).len());
    }
    let ghost second = invoice;
    match child(&doc, tx, "ApplicableHeaderTradeAgreement") {
        Some(ag) => read_agreement(&doc, ag, &mut invoice),
        None => {},
    }
    match child(&doc, tx, "ApplicableHeaderTradeDelivery") {
        Some(del) => read_delivery(&doc, del, &mut invoice, &mut malformed),
        None => {},
    }
    match child(&doc, tx, "ApplicableHeaderTradeSettlement") {
        Some(st) => {
            read_settlement_tax(&doc, st, &mut invoice, &mut malformed);
            read_settlement_payment(&doc, st, &mut invoice);
            read_settlement_rest(&doc, st, &mut invoice, &mut malformed);
        },
        None => {},
    }
    proof {
        lemma_cii_header_kept(vs, root as int, invoice, first);
        assert(same_body(invoice, second));
        assert(cii_body_read(vs, root as int, invoice));
        assert(cii_parties_read(vs, root as int, invoice));
    }
    let unmapped = unmapped_tx(&doc, tx);
    Ok(Read { invoice, unmapped, malformed })
}

} // verus!
