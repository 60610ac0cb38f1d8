//! Reading UBL 2.1 Invoice and CreditNote documents into the semantic model.
use vstd::prelude::*;
use crate::amount::{InvoiceAmount, UnitPriceAmount};
use crate::attachment::Attachment;
use crate::code::Code;
use crate::date::{Date, date_fields, valid_ymd};
use crate::dec::{Dec, decimal_parse};
use crate::formats::tree::{XmlNode, XmlNodeView, named_children, opt_code, opt_percent, opt_text, parsed_opt, attribute, attribute_spec, child, child_text, child_text_spec, children, named_child, node_text, node_views, opt_int, text_of};
use crate::formats::xml::parse_xs_boolean;
use crate::identifier::{DocumentReference, Identifier};
use crate::invoice::{AllowanceCharge, Contact, Delivery, DocumentTotals, InvoiceNote, ItemAttribute, Line, LineAllowanceCharge, Party, PartyTax, Payee, PaymentInstructions, Period, PostalAddress, Price, SupportingDocument, TaxBreakdown, TaxRepresentative};
use crate::numeric::{Percentage, Quantity};
use crate::payment::{CreditTransfer, DirectDebit, PaymentCard, PaymentMeans};
use crate::profile::Profile;
use crate::tax::{TaxCategory, TaxSystem, pint_my_category, wire_scheme, wire_scheme_of, is_pint_my_category, system_for_name};
use crate::text::{blank, eq_ic, owned, str_eq, str_eq_ic, trim};

verus! {

/// Text of the `name` child of the optional node `p`.
pub fn opt_child_text(doc: &Vec<XmlNode>, p: Option<usize>, name: &str) -> (r: Option<String>)
    requires
        p matches Some(i) ==> i < doc.len(),
    ensures
        p is None ==> r is None,
        p matches Some(i) ==> match child_text_spec(node_views(doc@), i as int, name@) {
            Some(t) => r matches Some(s) && s@ == t,
            None => r is None,
        },
{
    match p {
        Some(i) => child_text(doc, i, name),
        None => None,
    }
}

/// The `name` child of the optional node `p`.
pub fn opt_child(doc: &Vec<XmlNode>, p: Option<usize>, name: &str) -> (r: Option<usize>)
    requires
        p matches Some(i) ==> i < doc.len(),
    ensures
        p is None ==> r is None,
        p matches Some(i) ==> match named_child(node_views(doc@), i as int, name@) {
            Some(j) => r == Some(j as usize),
            None => r is None,
        },
        p matches Some(i) ==> named_child(node_views(doc@), i as int, name@) == opt_int(r),
        r matches Some(j) ==> j < doc.len(),
{
    match p {
        Some(i) => child(doc, i, name),
        None => None,
    }
}

fn text_or_empty(t: Option<String>) -> (r: String)
    ensures
        t matches Some(s) ==> r@ == s@,
        t is None ==> r@ == Seq::<char>::empty(),
{
    match t {
        Some(s) => s,
        None => String::new(),
    }
}

fn code_of(t: Option<String>) -> (r: Option<Code>)
    ensures
        t is None ==> r is None,
        t matches Some(s) ==> (r matches Some(c) && c@ == s@),
{
    match t {
        Some(s) => Some(Code::new(s.as_str())),
        None => None,
    }
}

fn reference_of(t: Option<String>) -> (r: Option<DocumentReference>)
    ensures
        t is None ==> r is None,
        t matches Some(s) ==> (r matches Some(d) && d.0@ == s@),
{
    match t {
        Some(s) => Some(DocumentReference(s)),
        None => None,
    }
}

/// The message a malformed value leaves: `path/name: text`.
pub open spec fn malformed_text(path: Seq<char>, name: Seq<char>, t: Seq<char>) -> Seq<char> {
    path + "/"@ + name + ": "@ + t
}

fn malformed_message(path: &str, name: &str, t: &str) -> (r: String)
    ensures
        r@ == malformed_text(path@, name@, t@),
{
    let mut s = owned(path);
    s.append("/");
    s.append(name);
    s.append(": ");
    s.append(t);
    s
}

/// The date that the `name` child of node `p` reads as.
pub open spec fn date_read(vs: Seq<XmlNodeView>, p: int, name: Seq<char>) -> Option<(int, int, int)> {
    match child_text_spec(vs, p, name) {
        Some(t) => match date_fields(trim(t)) {
            Some((y, m, d)) => if valid_ymd(y, m, d) { Some((y, m, d)) } else { None },
            None => None,
        },
        None => None,
    }
}

/// A date is the one read, or absent where none is read.
pub open spec fn date_matches(d: Option<Date>, v: Option<(int, int, int)>) -> bool {
    match v {
        Some((y, m, dd)) => d matches Some(x) && x.y() == y && x.m() == m && x.d() == dd,
        None => d is None,
    }
}

/// Calendar date of the `name` child; text that is not a date is recorded
/// as malformed and read as absent.
pub fn child_date(
    doc: &Vec<XmlNode>,
    p: usize,
    name: &str,
    malformed: &mut Vec<String>,
    path: &str,
) -> (r: Option<Date>)
    requires
        p < doc.len(),
    ensures
        date_matches(r, date_read(node_views(doc@), p as int, name@)),
        match child_text_spec(node_views(doc@), p as int, name@) {
            None => r is None && final(malformed)@ == old(malformed)@,
            Some(t) => match date_fields(trim(t)) {
                Some((y, m, d)) => if valid_ymd(y, m, d) {
                    r matches Some(x) && x.y() == y && x.m() == m && x.d() == d && final(malformed)@ == old(malformed)@
                } else {
                    r is None && final(malformed)@.len() == old(malformed)@.len() + 1 && final(malformed)@.last()@ == malformed_text(path@, name@, t)
                        && final(malformed)@.drop_last() == old(malformed)@
                },
                None => r is None && final(malformed)@.len() == old(malformed)@.len() + 1 && final(malformed)@.last()@ == malformed_text(path@, name@, t) && final(malformed)@.drop_last()
                    == old(malformed)@,
            },
        },
{
    match child_text(doc, p, name) {
        None => None,
        Some(s) => match Date::parse(s.as_str()) {
            Ok(d) => Some(d),
            Err(_) => {
                let m = malformed_message(path, name, s.as_str());
                malformed.push(m);
                assert(final(malformed)@.drop_last() =~= old(malformed)@);
                None
            },
        },
    }
}

/// The amount that the `name` child of node `p` reads as: its trimmed text
/// parsed as a decimal, where that has at most two fraction digits.
pub open spec fn amount_read(vs: Seq<XmlNodeView>, p: int, name: Seq<char>) -> Option<Dec> {
    match child_text_spec(vs, p, name) {
        Some(t) => match decimal_parse(trim(t)) {
            Some(d) => if d.s() <= 2 { Some(d) } else { None },
            None => None,
        },
        None => None,
    }
}

/// An amount read from an optional value, zero where it is absent.
pub open spec fn taxable_read(a: InvoiceAmount, v: Option<Dec>) -> bool {
    match v {
        Some(d) => a.dec() == d,
        None => a.cents() == 0,
    }
}

/// Text of the first child with the local name of an optional node.
pub open spec fn text_under(vs: Seq<XmlNodeView>, p: Option<int>, name: Seq<char>) -> Option<Seq<char>> {
    match p {
        Some(i) => child_text_spec(vs, i, name),
        None => None,
    }
}

/// A text, or empty where there is none.
pub open spec fn text_or_none(t: Option<Seq<char>>) -> Seq<char> {
    match t {
        Some(x) => x,
        None => Seq::empty(),
    }
}

/// The decimal of an optional amount.
pub open spec fn amount_dec(a: Option<InvoiceAmount>) -> Option<Dec> {
    match a {
        Some(x) => Some(x.dec()),
        None => None,
    }
}

/// Amount of the `name` child; text that is not an amount of at most two
/// fraction digits is recorded as malformed and read as absent.
pub fn child_amount(
    doc: &Vec<XmlNode>,
    p: usize,
    name: &str,
    malformed: &mut Vec<String>,
    path: &str,
) -> (r: Option<InvoiceAmount>)
    requires
        p < doc.len(),
    ensures
        amount_dec(r) == amount_read(node_views(doc@), p as int, name@),
        match child_text_spec(node_views(doc@), p as int, name@) {
            None => r is None && final(malformed)@ == old(malformed)@,
            Some(t) => match decimal_parse(trim(t)) {
                Some(d) => if d.s() <= 2 {
                    r matches Some(a) && a.dec() == d && final(malformed)@ == old(malformed)@
                } else {
                    r is None && final(malformed)@.drop_last() == old(malformed)@ && final(malformed)@.len() == old(malformed)@.len() + 1 && final(malformed)@.last()@
                        == malformed_text(path@, name@, t)
                },
                None => r is None && final(malformed)@.drop_last() == old(malformed)@ && final(malformed)@.len() == old(malformed)@.len() + 1 && final(malformed)@.last()@
                    == malformed_text(path@, name@, t),
            },
        },
{
    match child_text(doc, p, name) {
        None => None,
        Some(s) => match InvoiceAmount::parse(s.as_str()) {
            Ok(a) => Some(a),
            Err(_) => {
                let m = malformed_message(path, name, s.as_str());
                malformed.push(m);
                assert(final(malformed)@.drop_last() =~= old(malformed)@);
                None
            },
        },
    }
}

/// `xs:boolean` value of the `ChargeIndicator` child.
pub fn charge_indicator(doc: &Vec<XmlNode>, p: usize) -> (r: Option<bool>)
    requires
        p < doc.len(),
    ensures
        match child_text_spec(node_views(doc@), p as int, "ChargeIndicator"@) {
            Some(t) => r == crate::formats::xml::xs_boolean(t),
            None => r is None,
        },
{
    match child_text(doc, p, "ChargeIndicator") {
        Some(s) => parse_xs_boolean(s.as_str()),
        None => None,
    }
}

/// An identifier is what a node reads as: its text (empty where absent),
/// `schemeID` and `schemeVersionID`.
pub open spec fn ident_read(v: XmlNodeView, id: Identifier) -> bool {
    &&& id.value@ == text_or_none(node_text(v))
    &&& opt_text(id.scheme) == attribute_spec(v, "schemeID"@)
    &&& opt_text(id.scheme_version) == attribute_spec(v, "schemeVersionID"@)
}

/// The first child with the local name of an optional node.
pub open spec fn child_under(vs: Seq<XmlNodeView>, p: Option<int>, name: Seq<char>) -> Option<int> {
    match p {
        Some(i) => named_child(vs, i, name),
        None => None,
    }
}

/// Identifier from a node: its text (empty when absent), `schemeID` and
/// `schemeVersionID`.
pub fn ident(doc: &Vec<XmlNode>, j: usize) -> (r: Identifier)
    requires
        j < doc.len(),
    ensures
        ident_read(doc@[j as int]@, r),
        node_text(doc@[j as int]@) matches Some(t) ==> r.value@ == t,
        node_text(doc@[j as int]@) is None ==> r.value@ == Seq::<char>::empty(),
        match attribute_spec(doc@[j as int]@, "schemeID"@) {
            Some(v) => r.scheme matches Some(s) && s@ == v,
            None => r.scheme is None,
        },
        match attribute_spec(doc@[j as int]@, "schemeVersionID"@) {
            Some(v) => r.scheme_version matches Some(s) && s@ == v,
            None => r.scheme_version is None,
        },
{
    Identifier {
        value: text_or_empty(text_of(doc, j)),
        scheme: attribute(doc, j, "schemeID"),
        scheme_version: attribute(doc, j, "schemeVersionID"),
    }
}

fn opt_ident(doc: &Vec<XmlNode>, j: Option<usize>) -> (r: Option<Identifier>)
    requires
        j matches Some(i) ==> i < doc.len(),
    ensures
        j is None <==> r is None,
        j matches Some(i) ==> (r matches Some(x) && ident_read(doc@[i as int]@, x)),
{
    match j {
        Some(i) => Some(ident(doc, i)),
        None => None,
    }
}

/// A note `#CODE#text` carries its subject code; any other text is the note.
pub open spec fn note_of(t: Seq<char>) -> (Option<Seq<char>>, Seq<char>) {
    if t.len() > 0 && t[0] == '#' && exists|k: int|
        1 < k < t.len() && t[k] == '#' && forall|j: int| 1 <= j < k ==> t[j] != '#' {
        let k = choose|k: int|
            1 < k < t.len() && t[k] == '#' && forall|j: int| 1 <= j < k ==> t[j] != '#';
        (Some(t.subrange(1, k)), t.skip(k + 1))
    } else {
        (None, t)
    }
}

/// A note: `#CODE#text` carries its subject code.
pub fn read_note(text: String) -> (r: InvoiceNote)
    ensures
        match note_of(text@) {
            (Some(c), body) => r.subject matches Some(s) && s@ == c && r.text@ == body,
            (None, body) => r.subject is None && r.text@ == body,
        },
{
    let v = crate::text::chars_of(text.as_str());
    if v.len() > 0 && v[0] == '#' {
        let mut k: usize = 1;
        while k < v.len() && v[k] != '#'
            invariant
                v@ == text@,
                1 <= k <= v.len(),
                forall|j: int| 1 <= j < k ==> v@[j] != '#',
            decreases v.len() - k,
        {
            k = k + 1;
        }
        if k < v.len() && k > 1 {
            proof {
                let c = choose|c: int|
                    1 < c < text@.len() && text@[c] == '#' && forall|j: int|
                        1 <= j < c ==> text@[j] != '#';
                if c < k {
                } else if c > k {
                    assert(text@[k as int] == '#');
                }
            }
            let code = text.as_str().substring_char(1, k);
            let body = text.as_str().substring_char(k + 1, v.len());
            return InvoiceNote { subject: Some(Code::new(code)), text: owned(body) };
        }
        proof {
            if exists|c: int|
                1 < c < text@.len() && text@[c] == '#' && forall|j: int| 1 <= j < c ==> text@[j] != '#' {
                let c = choose|c: int|
                    1 < c < text@.len() && text@[c] == '#' && forall|j: int| 1 <= j < c ==> text@[j] != '#';
                if k == v.len() {
                    assert(text@[c] != '#');
                } else {
                    assert(k == 1);
                    assert(text@[1] == '#');
                }
            }
        }
    }
    InvoiceNote { subject: None, text }
}

/// Tax system of a category read from the wire.
pub open spec fn system_of_wire(profile: Profile, scheme: Seq<char>, category: Seq<char>) -> TaxSystem {
    if eq_ic(scheme, "GST"@) {
        TaxSystem::Gst
    } else if eq_ic(scheme, "AAL"@) || eq_ic(category, "TTX"@) {
        TaxSystem::Sst
    } else if profile == Profile::PintMy && is_pint_my_category(category) {
        TaxSystem::Sst
    } else {
        match system_for_name(scheme) {
            Some(s) => s,
            None => TaxSystem::Vat,
        }
    }
}

/// Tax system of a category read from the wire: GST and AAL schemes, `TTX`
/// and PINT-MY categories decide before the scheme name; VAT otherwise.
pub fn system_from_wire(profile: Profile, scheme: &str, category: &str) -> (r: TaxSystem)
    ensures
        r == system_of_wire(profile, scheme@, category@),
{
    if str_eq_ic(scheme, "GST") {
        return TaxSystem::Gst;
    }
    if str_eq_ic(scheme, "AAL") || str_eq_ic(category, "TTX") {
        return TaxSystem::Sst;
    }
    if profile == Profile::PintMy && pint_my_category(category) {
        return TaxSystem::Sst;
    }
    match TaxSystem::parse(scheme) {
        Some(s) => s,
        None => TaxSystem::Vat,
    }
}

/// Tax category from a `ClassifiedTaxCategory` / `TaxCategory` node.
pub fn read_tax_cat(doc: &Vec<XmlNode>, j: usize, profile: Profile) -> (r: TaxCategory)
    requires
        j < doc.len(),
    ensures
        child_text_spec(node_views(doc@), j as int, "ID"@) matches Some(t) ==> r.code@ == t,
        child_text_spec(node_views(doc@), j as int, "ID"@) is None ==> r.code@ == Seq::<char>::empty(),
        opt_percent(r.percent) == parsed_opt(child_text_spec(node_views(doc@), j as int, "Percent"@)),
        r.system == system_of_wire(profile, text_or_none(text_under(node_views(doc@), named_child(node_views(doc@), j as int, "TaxScheme"@), "ID"@)), r.code@),
{
    let code = text_or_empty(child_text(doc, j, "ID"));
    let percent = match child_text(doc, j, "Percent") {
        Some(s) => match Dec::parse(s.as_str()) {
            Ok(d) => Some(Percentage::new(d)),
            Err(_) => None,
        },
        None => None,
    };
    let tax_scheme = child(doc, j, "TaxScheme");
    let scheme = text_or_empty(opt_child_text(doc, tax_scheme, "ID"));
    let system = system_from_wire(profile, scheme.as_str(), code.as_str());
    TaxCategory { system, code, percent }
}

fn empty_category() -> (r: TaxCategory)
    ensures
        r.system == TaxSystem::Vat,
        r.code@ == Seq::<char>::empty(),
        r.percent is None,
{
    TaxCategory { system: TaxSystem::Vat, code: String::new(), percent: None }
}

/// Postal address from a `PostalAddress` / `Address` node.
/// A postal address is what a `PostalAddress` node reads as.
pub open spec fn address_read(vs: Seq<XmlNodeView>, a: int, addr: PostalAddress) -> bool {
    &&& opt_text(addr.line1) == child_text_spec(vs, a, "StreetName"@)
    &&& opt_text(addr.line2) == child_text_spec(vs, a, "AdditionalStreetName"@)
    &&& addr.line3 is None
    &&& opt_text(addr.city) == child_text_spec(vs, a, "CityName"@)
    &&& opt_text(addr.post_code) == child_text_spec(vs, a, "PostalZone"@)
    &&& opt_text(addr.subdivision) == child_text_spec(vs, a, "CountrySubentity"@)
    &&& opt_code(addr.country) == text_under(vs, named_child(vs, a, "Country"@), "IdentificationCode"@)
}

fn read_address(doc: &Vec<XmlNode>, a: usize) -> (r: PostalAddress)
    requires
        a < doc.len(),
    ensures
        address_read(node_views(doc@), a as int, r),
{
    let country = child(doc, a, "Country");
    PostalAddress {
        line1: child_text(doc, a, "StreetName"),
        line2: child_text(doc, a, "AdditionalStreetName"),
        line3: None,
        city: child_text(doc, a, "CityName"),
        post_code: child_text(doc, a, "PostalZone"),
        subdivision: child_text(doc, a, "CountrySubentity"),
        country: code_of(opt_child_text(doc, country, "IdentificationCode")),
    }
}

/// The `ID` nodes of the `PartyIdentification` nodes that have one, in order.
pub open spec fn party_id_nodes(vs: Seq<XmlNodeView>, ks: Seq<int>) -> Seq<int>
    decreases ks.len(),
{
    if ks.len() == 0 {
        Seq::empty()
    } else {
        match named_child(vs, ks.last(), "ID"@) {
            Some(id) => party_id_nodes(vs, ks.drop_last()).push(id),
            None => party_id_nodes(vs, ks.drop_last()),
        }
    }
}

/// A `PartyTaxScheme` company id counts as the tax registration: its
/// `schemeID` is `GST`, or the scheme is GST, AAL or TAX.
pub open spec fn tin_scheme(vs: Seq<XmlNodeView>, id: int, scheme: Seq<char>) -> bool {
    attribute_spec(vs[id], "schemeID"@) == Some("GST"@) || eq_ic(scheme, "GST"@) || eq_ic(scheme, "AAL"@) || eq_ic(
        scheme,
        "TAX"@,
    )
}

/// How the `PartyTaxScheme` nodes of `ts` classify: the company id node of
/// the VAT identifier, of the tax registration, and the other schemes with
/// their company id nodes. The first of each kind is kept; a second VAT
/// identifier becomes the tax registration where there is none.
pub open spec fn party_taxes_read(vs: Seq<XmlNodeView>, ts: Seq<int>) -> (Option<int>, Option<int>, Seq<(int, Seq<char>)>)
    decreases ts.len(),
{
    if ts.len() == 0 {
        (None, None, Seq::empty())
    } else {
        let (vat, tin, others) = party_taxes_read(vs, ts.drop_last());
        let t = ts.last();
        match named_child(vs, t, "CompanyID"@) {
            None => (vat, tin, others),
            Some(id) => {
                let scheme = tax_scheme_name(vs, t);
                if tin_scheme(vs, id, scheme) {
                    (vat, if tin is None { Some(id) } else { tin }, others)
                } else if vat_scheme(scheme) {
                    if vat is None {
                        (Some(id), tin, others)
                    } else {
                        (vat, if tin is None { Some(id) } else { tin }, others)
                    }
                } else {
                    (vat, tin, others.push((id, scheme)))
                }
            },
        }
    }
}

/// An optional identifier is what an optional node reads as.
pub open spec fn opt_ident_read(vs: Seq<XmlNodeView>, n: Option<int>, id: Option<Identifier>) -> bool {
    match n {
        Some(i) => id matches Some(x) && ident_read(vs[i], x),
        None => id is None,
    }
}

/// The tax schemes of a party are what its `PartyTaxScheme` nodes read as.
pub open spec fn party_taxes_match(vs: Seq<XmlNodeView>, ts: Seq<int>, party: Party) -> bool {
    let (vat, tin, others) = party_taxes_read(vs, ts);
    &&& opt_ident_read(vs, vat, party.vat_identifier)
    &&& opt_ident_read(vs, tin, party.tax_registration)
    &&& party.party_taxes@.len() == others.len()
    &&& forall|k: int| #![trigger party.party_taxes@[k]] 0 <= k < others.len() ==> ident_read(vs[others[k].0], party.party_taxes@[k].id)
        && party.party_taxes@[k].scheme@ == others[k].1
}

/// Party from a `Party` node: name from `PartyName` or the legal entity's
/// registration name, identifiers, tax schemes sorted into VAT, tax
/// registration and extra rows, address and contact.
/// A UBL party as read from its `Party` node: name (the party name, else
/// the registration name), endpoint, legal registration, identifiers, tax
/// schemes, postal address and contact.
pub open spec fn ubl_party_read(vs: Seq<XmlNodeView>, node: int, r: Party) -> bool {
    let legal = named_child(vs, node, "PartyLegalEntity"@);
    let ids = party_id_nodes(vs, named_children(vs, node, "PartyIdentification"@, vs.len() as int));
    &&& r.name@ == match text_under(vs, named_child(vs, node, "PartyName"@), "Name"@) {
        Some(n) => n,
        None => text_or_none(text_under(vs, legal, "RegistrationName"@)),
    }
    &&& match named_child(vs, node, "EndpointID"@) {
        Some(ep) => r.electronic_address matches Some(x) && x.value@ == text_or_none(node_text(vs[ep])) && opt_text(
            x.scheme,
        ) == attribute_spec(vs[ep], "schemeID"@) && x.scheme_version is None,
        None => r.electronic_address is None,
    }
    &&& opt_ident_read(vs, child_under(vs, legal, "CompanyID"@), r.legal_registration)
    &&& r.identifiers@.len() == ids.len()
    &&& forall|k: int| #![trigger r.identifiers@[k]] 0 <= k < ids.len() ==> ident_read(vs[ids[k]], r.identifiers@[k])
    &&& party_taxes_match(vs, named_children(vs, node, "PartyTaxScheme"@, vs.len() as int), r)
    &&& match named_child(vs, node, "PostalAddress"@) {
        Some(a) => r.address matches Some(x) && address_read(vs, a, x),
        None => r.address is None,
    }
    &&& match named_child(vs, node, "Contact"@) {
        Some(c) => r.contact matches Some(x) && opt_text(x.point) == child_text_spec(vs, c, "Name"@) && opt_text(x.phone)
            == child_text_spec(vs, c, "Telephone"@) && opt_text(x.email) == child_text_spec(vs, c, "ElectronicMail"@),
        None => r.contact is None,
    }
    &&& r.trading_name is None
    &&& r.additional_legal is None
}

pub fn read_party(doc: &Vec<XmlNode>, node: usize, profile: Profile) -> (r: Party)
    requires
        node < doc.len(),
    ensures
        ubl_party_read(node_views(doc@), node as int, r),
        ({
            let vs = node_views(doc@);
            let legal = named_child(vs, node as int, "PartyLegalEntity"@);
            let ids = party_id_nodes(vs, kids(doc@, node as int, "PartyIdentification"@));
            &&& r.name@ == match text_under(vs, named_child(vs, node as int, "PartyName"@), "Name"@) {
                Some(n) => n,
                None => text_or_none(text_under(vs, legal, "RegistrationName"@)),
            }
            &&& match named_child(vs, node as int, "EndpointID"@) {
                Some(ep) => r.electronic_address matches Some(x) && x.value@ == text_or_none(node_text(vs[ep])) && opt_text(
                    x.scheme,
                ) == attribute_spec(vs[ep], "schemeID"@) && x.scheme_version is None,
                None => r.electronic_address is None,
            }
            &&& opt_ident_read(vs, child_under(vs, legal, "CompanyID"@), r.legal_registration)
            &&& r.identifiers@.len() == ids.len()
            &&& forall|k: int| #![trigger r.identifiers@[k]] 0 <= k < ids.len() ==> ident_read(vs[ids[k]], r.identifiers@[k])
            &&& party_taxes_match(vs, kids(doc@, node as int, "PartyTaxScheme"@), r)
            &&& match named_child(vs, node as int, "PostalAddress"@) {
                Some(a) => r.address matches Some(x) && address_read(vs, a, x),
                None => r.address is None,
            }
            &&& match named_child(vs, node as int, "Contact"@) {
                Some(c) => r.contact matches Some(x) && opt_text(x.point) == child_text_spec(vs, c, "Name"@) && opt_text(x.phone)
                    == child_text_spec(vs, c, "Telephone"@) && opt_text(x.email) == child_text_spec(vs, c, "ElectronicMail"@),
                None => r.contact is None,
            }
            &&& r.trading_name is None
            &&& r.additional_legal is None
        }),
{
    let ghost vs = node_views(doc@);
    assert(vs.len() == doc@.len());
    let party_name = child(doc, node, "PartyName");
    let legal = child(doc, node, "PartyLegalEntity");
    let name = match opt_child_text(doc, party_name, "Name") {
        Some(n) => n,
        None => text_or_empty(opt_child_text(doc, legal, "RegistrationName")),
    };
    let addr = child(doc, node, "PostalAddress");
    let country_node = opt_child(doc, addr, "Country");
    let country = if addr.is_some() { text_or_empty(opt_child_text(doc, country_node, "IdentificationCode")) } else { String::new() };
    let mut party = Party::new(name.as_str(), country.as_str());
    proof {
        if addr is None {
            assert(blank(country@));
        }
    }
    match child(doc, node, "EndpointID") {
        Some(ep) => {
            party.electronic_address = Some(
                Identifier {
                    value: text_or_empty(text_of(doc, ep)),
                    scheme: attribute(doc, ep, "schemeID"),
                    scheme_version: None,
                },
            );
        },
        None => {},
    }
    match opt_child(doc, legal, "CompanyID") {
        Some(id) => {
            party.legal_registration = Some(ident(doc, id));
        },
        None => {},
    }
    read_party_ids(doc, node, &mut party);
    read_party_taxes(doc, node, &mut party);
    match addr {
        Some(a) => {
            party.address = Some(read_address(doc, a));
        },
        None => {},
    }
    match child(doc, node, "Contact") {
        Some(c) => {
            party.contact = Some(
                Contact {
                    point: child_text(doc, c, "Name"),
                    phone: child_text(doc, c, "Telephone"),
                    email: child_text(doc, c, "ElectronicMail"),
                },
            );
        },
        None => {},
    }
    let _ = profile;
    party
}

fn read_party_ids(doc: &Vec<XmlNode>, node: usize, party: &mut Party)
    requires
        node < doc.len(),
        old(party).identifiers@.len() == 0,
    ensures
        ({
            let vs = node_views(doc@);
            let ids = party_id_nodes(vs, kids(doc@, node as int, "PartyIdentification"@));
            &&& final(party).identifiers@.len() == ids.len()
            &&& forall|k: int| #![trigger final(party).identifiers@[k]] 0 <= k < ids.len() ==> ident_read(
                vs[ids[k]],
                final(party).identifiers@[k],
            )
        }),
        final(party).name == old(party).name,
        final(party).trading_name == old(party).trading_name,
        final(party).legal_registration == old(party).legal_registration,
        final(party).vat_identifier == old(party).vat_identifier,
        final(party).tax_registration == old(party).tax_registration,
        final(party).electronic_address == old(party).electronic_address,
        final(party).party_taxes == old(party).party_taxes,
        final(party).additional_legal == old(party).additional_legal,
        final(party).address == old(party).address,
        final(party).contact == old(party).contact,
{
    let ghost vs = node_views(doc@);
    let pids = children(doc, node, "PartyIdentification");
    let ghost ks = kids(doc@, node as int, "PartyIdentification"@);
    let mut i: usize = 0;
    assert(ks.take(0) =~= Seq::<int>::empty());
    while i < pids.len()
        invariant
            i <= pids.len(),
            vs == node_views(doc@),
            pids@.len() == ks.len(),
            forall|k: int| 0 <= k < pids@.len() ==> pids@[k] as int == ks[k],
            forall|k: int| 0 <= k < pids@.len() ==> pids@[k] < doc.len(),
            party.identifiers@.len() == party_id_nodes(vs, ks.take(i as int)).len(),
            forall|k: int| #![trigger party.identifiers@[k]] 0 <= k < party.identifiers@.len() ==> ident_read(
                vs[party_id_nodes(vs, ks.take(i as int))[k]],
                party.identifiers@[k],
            ),
            party.name == old(party).name,
            party.trading_name == old(party).trading_name,
            party.legal_registration == old(party).legal_registration,
            party.vat_identifier == old(party).vat_identifier,
            party.tax_registration == old(party).tax_registration,
            party.electronic_address == old(party).electronic_address,
            party.party_taxes == old(party).party_taxes,
            party.additional_legal == old(party).additional_legal,
            party.address == old(party).address,
            party.contact == old(party).contact,
        decreases pids.len() - i,
    {
        assert(ks.take(i + 1).drop_last() =~= ks.take(i as int));
        match child(doc, pids[i], "ID") {
            Some(id) => {
                party.identifiers.push(ident(doc, id));
            },
            None => {},
        }
        i = i + 1;
    }
    assert(ks.take(ks.len() as int) =~= ks);
}

fn read_party_taxes(doc: &Vec<XmlNode>, node: usize, party: &mut Party)
    requires
        node < doc.len(),
        old(party).vat_identifier is None,
        old(party).tax_registration is None,
        old(party).party_taxes@.len() == 0,
    ensures
        party_taxes_match(node_views(doc@), kids(doc@, node as int, "PartyTaxScheme"@), *final(party)),
        final(party).name == old(party).name,
        final(party).trading_name == old(party).trading_name,
        final(party).identifiers == old(party).identifiers,
        final(party).legal_registration == old(party).legal_registration,
        final(party).electronic_address == old(party).electronic_address,
        final(party).additional_legal == old(party).additional_legal,
        final(party).address == old(party).address,
        final(party).contact == old(party).contact,
{
    let ghost vs = node_views(doc@);
    let taxes = children(doc, node, "PartyTaxScheme");
    let ghost ks = kids(doc@, node as int, "PartyTaxScheme"@);
    let mut t: usize = 0;
    assert(ks.take(0) =~= Seq::<int>::empty());
    while t < taxes.len()
        invariant
            t <= taxes.len(),
            vs == node_views(doc@),
            taxes@.len() == ks.len(),
            forall|k: int| 0 <= k < taxes@.len() ==> taxes@[k] as int == ks[k],
            forall|k: int| 0 <= k < taxes@.len() ==> taxes@[k] < doc.len(),
            party_taxes_match(vs, ks.take(t as int), *party),
            party.name == old(party).name,
            party.trading_name == old(party).trading_name,
            party.identifiers == old(party).identifiers,
            party.legal_registration == old(party).legal_registration,
            party.electronic_address == old(party).electronic_address,
            party.additional_legal == old(party).additional_legal,
            party.address == old(party).address,
            party.contact == old(party).contact,
        decreases taxes.len() - t,
    {
        assert(ks.take(t + 1).drop_last() =~= ks.take(t as int));
        let tax = taxes[t];
        match child(doc, tax, "CompanyID") {
            None => {},
            Some(id) => {
                let id_value = ident(doc, id);
                let scheme_node = child(doc, tax, "TaxScheme");
                let scheme = text_or_empty(opt_child_text(doc, scheme_node, "ID"));
                let gst_scheme = match &id_value.scheme {
                    Some(s) => str_eq(s.as_str(), "GST"),
                    None => false,
                };
                if gst_scheme || str_eq_ic(scheme.as_str(), "GST") || str_eq_ic(
                    scheme.as_str(),
                    "AAL",
                ) || str_eq_ic(scheme.as_str(), "TAX") {
                    if party.tax_registration.is_none() {
                        party.tax_registration = Some(id_value);
                    }
                } else if str_eq_ic(scheme.as_str(), "VAT") || scheme.as_str().unicode_len() == 0 {
                    if party.vat_identifier.is_none() {
                        party.vat_identifier = Some(id_value);
                    } else if party.tax_registration.is_none() {
                        party.tax_registration = Some(id_value);
                    }
                } else {
                    party.party_taxes.push(PartyTax { id: id_value, scheme });
                }
            },
        }
        t = t + 1;
    }
    assert(ks.take(ks.len() as int) =~= ks);
}

/// Payee from a `PayeeParty` node.
pub fn read_payee(doc: &Vec<XmlNode>, node: usize) -> (r: Payee)
    requires
        node < doc.len(),
    ensures
        match named_child(node_views(doc@), node as int, "PartyName"@) {
            Some(p) => match child_text_spec(node_views(doc@), p, "Name"@) {
                Some(t) => r.name@ == t,
                None => r.name@ == Seq::<char>::empty(),
            },
            None => r.name@ == Seq::<char>::empty(),
        },
{
    let pn = child(doc, node, "PartyName");
    let pi = child(doc, node, "PartyIdentification");
    let le = child(doc, node, "PartyLegalEntity");
    Payee {
        name: text_or_empty(opt_child_text(doc, pn, "Name")),
        identifier: opt_ident(doc, opt_child(doc, pi, "ID")),
        legal_registration: opt_ident(doc, opt_child(doc, le, "CompanyID")),
    }
}

/// A tax scheme name that stands for VAT: `VAT` (ASCII case ignored) or empty.
pub open spec fn vat_scheme(t: Seq<char>) -> bool {
    eq_ic(t, "VAT"@) || t.len() == 0
}

/// The scheme name of a `PartyTaxScheme` node.
pub open spec fn tax_scheme_name(vs: Seq<XmlNodeView>, t: int) -> Seq<char> {
    text_or_none(text_under(vs, named_child(vs, t, "TaxScheme"@), "ID"@))
}

/// The `CompanyID` node of the first of `ts` with a VAT scheme and a
/// company id.
pub open spec fn first_vat_id(vs: Seq<XmlNodeView>, ts: Seq<int>) -> Option<int>
    decreases ts.len(),
{
    if ts.len() == 0 {
        None
    } else {
        match first_vat_id(vs, ts.drop_last()) {
            Some(x) => Some(x),
            None => if vat_scheme(tax_scheme_name(vs, ts.last())) {
                named_child(vs, ts.last(), "CompanyID"@)
            } else {
                None
            },
        }
    }
}

proof fn lemma_first_vat_stays(vs: Seq<XmlNodeView>, ts: Seq<int>, i: int, j: int)
    requires
        0 <= i <= j <= ts.len(),
        first_vat_id(vs, ts.take(i)) is Some,
    ensures
        first_vat_id(vs, ts.take(j)) == first_vat_id(vs, ts.take(i)),
    decreases j - i,
{
    if j > i {
        lemma_first_vat_stays(vs, ts, i, j - 1);
        assert(ts.take(j).drop_last() =~= ts.take(j - 1));
    }
}

/// The party node of a tax representative: its `Party` child, else itself.
pub open spec fn rep_party(vs: Seq<XmlNodeView>, node: int) -> int {
    match named_child(vs, node, "Party"@) {
        Some(p) => p,
        None => node,
    }
}

/// A tax representative is what a `TaxRepresentativeParty` node reads as:
/// name, the first VAT company id, and the country of the address.
pub open spec fn tax_rep_read(doc: Seq<XmlNode>, node: int, r: TaxRepresentative) -> bool {
            let vs = node_views(doc);
            let party = rep_party(vs, node);
            let country = text_under(
                vs,
                child_under(vs, named_child(vs, party, "PostalAddress"@), "Country"@),
                "IdentificationCode"@,
            );
            &&& r.name@ == text_or_none(text_under(vs, named_child(vs, party, "PartyName"@), "Name"@))
            &&& match first_vat_id(vs, kids(doc, party, "PartyTaxScheme"@)) {
                Some(id) => r.vat_identifier matches Some(x) && ident_read(vs[id], x),
                None => r.vat_identifier is None,
            }
            &&& match country {
                Some(c) => r.address matches Some(a) && opt_code(a.country) == Some(c) && a.line1 is None && a.line2 is None
                    && a.line3 is None && a.city is None && a.post_code is None && a.subdivision is None,
                None => r.address is None,
            }
}

/// Seller tax representative from a `TaxRepresentativeParty` node (party
/// children directly, or under a nested `Party`).
pub fn read_tax_rep(doc: &Vec<XmlNode>, node: usize) -> (r: TaxRepresentative)
    requires
        node < doc.len(),
    ensures
        tax_rep_read(doc@, node as int, r),
{
    let party = match child(doc, node, "Party") {
        Some(p) => p,
        None => node,
    };
    let ghost vs = node_views(doc@);
    let addr = child(doc, party, "PostalAddress");
    let country = code_of(opt_child_text(doc, opt_child(doc, addr, "Country"), "IdentificationCode"));
    let pn = child(doc, party, "PartyName");
    let taxes = children(doc, party, "PartyTaxScheme");
    let ghost ks = kids(doc@, party as int, "PartyTaxScheme"@);
    let mut vat: Option<Identifier> = None;
    let mut t: usize = 0;
    assert(ks.take(0) =~= Seq::<int>::empty());
    while t < taxes.len() && vat.is_none()
        invariant
            t <= taxes.len(),
            vs == node_views(doc@),
            taxes@.len() == ks.len(),
            forall|k: int| 0 <= k < taxes@.len() ==> taxes@[k] as int == ks[k],
            forall|k: int| 0 <= k < taxes@.len() ==> taxes@[k] < doc.len(),
            match first_vat_id(vs, ks.take(t as int)) {
                Some(id) => vat matches Some(x) && ident_read(vs[id], x),
                None => vat is None,
            },
        decreases taxes.len() - t,
    {
        assert(ks.take(t + 1).drop_last() =~= ks.take(t as int));
        let tax = taxes[t];
        let scheme = text_or_empty(opt_child_text(doc, child(doc, tax, "TaxScheme"), "ID"));
        if str_eq_ic(scheme.as_str(), "VAT") || scheme.as_str().unicode_len() == 0 {
            vat = opt_ident(doc, child(doc, tax, "CompanyID"));
        }
        t = t + 1;
    }
    proof {
        if vat is Some {
            lemma_first_vat_stays(vs, ks, t as int, ks.len() as int);
        }
        assert(ks.take(ks.len() as int) =~= ks);
    }
    let address = match country {
        Some(c) => Some(
            PostalAddress {
                line1: None,
                line2: None,
                line3: None,
                city: None,
                post_code: None,
                subdivision: None,
                country: Some(c),
            },
        ),
        None => None,
    };
    TaxRepresentative {
        name: text_or_empty(opt_child_text(doc, pn, "Name")),
        vat_identifier: vat,
        address,
    }
}

/// Delivery from a `Delivery` node. An address without a country is still
/// an address.
pub fn read_delivery(doc: &Vec<XmlNode>, node: usize, malformed: &mut Vec<String>) -> (r: Delivery)
    requires
        node < doc.len(),
{
    let location = child(doc, node, "DeliveryLocation");
    let loc = opt_child(doc, location, "Address");
    let line = opt_child(doc, loc, "AddressLine");
    let address = match loc {
        Some(a) => Some(read_address(doc, a)),
        None => None,
    };
    Delivery {
        name: opt_child_text(doc, line, "Line"),
        location_id: opt_ident(doc, opt_child(doc, location, "ID")),
        date: child_date(doc, node, "ActualDeliveryDate", malformed, "Delivery"),
        address,
    }
}

/// A credit transfer account is what a `PayeeFinancialAccount` node reads
/// as: its id (empty where absent), name and provider branch id.
pub open spec fn account_read(vs: Seq<XmlNodeView>, a: int, ct: CreditTransfer) -> bool {
    &&& ct.account_id.value@ == text_or_none(child_text_spec(vs, a, "ID"@))
    &&& ct.account_id.scheme is None
    &&& ct.account_id.scheme_version is None
    &&& opt_text(ct.account_name) == child_text_spec(vs, a, "Name"@)
    &&& opt_text(ct.provider) == text_under(vs, named_child(vs, a, "FinancialInstitutionBranch"@), "ID"@)
}

/// The payment means that a `PaymentMeans` node reads as: a card with an
/// account number; else a direct debit for a mandate (creditor: the first
/// account's id); else a credit transfer for the accounts, where there are
/// any.
pub open spec fn means_read(vs: Seq<XmlNodeView>, node: int, accs: Seq<int>, means: Option<PaymentMeans>) -> bool {
    match named_child(vs, node, "CardAccount"@) {
        Some(card) => match child_text_spec(vs, card, "PrimaryAccountNumberID"@) {
            Some(pan) => means matches Some(PaymentMeans::Card(c)) && c.pan@ == pan && opt_text(c.holder) == child_text_spec(
                vs,
                card,
                "HolderName"@,
            ),
            None => means is None,
        },
        None => match named_child(vs, node, "PaymentMandate"@) {
            Some(man) => means matches Some(PaymentMeans::DirectDebit(dd)) && opt_text(dd.mandate) == child_text_spec(
                vs,
                man,
                "ID"@,
            ) && (accs.len() == 0 ==> dd.creditor_id is None) && (accs.len() > 0 ==> (dd.creditor_id matches Some(cr)
                && cr.value@ == text_or_none(child_text_spec(vs, accs[0], "ID"@)) && cr.scheme is None)) && match text_under(
                vs,
                named_child(vs, man, "PayerFinancialAccount"@),
                "ID"@,
            ) {
                Some(t) => dd.debited_account matches Some(d) && d.value@ == t && d.scheme is None,
                None => dd.debited_account is None,
            },
            None => if accs.len() > 0 {
                means matches Some(PaymentMeans::CreditTransfer(cts)) && cts@.len() == accs.len() && forall|k: int|
                    #![trigger cts@[k]]
                    0 <= k < cts@.len() ==> account_read(vs, accs[k], cts@[k])
            } else {
                means is None
            },
        },
    }
}

/// Payment instructions from a `PaymentMeans` node. A card, else a mandate
/// (the first account is then the creditor), else the accounts as credit
/// transfer.
/// Payment instructions are what a `PaymentMeans` node reads as: its code,
/// the code's name (else the instruction note), the payment id and the
/// means.
pub open spec fn payment_read(doc: Seq<XmlNode>, node: int, r: PaymentInstructions) -> bool {
            let vs = node_views(doc);
            let code_node = named_child(vs, node, "PaymentMeansCode"@);
            &&& opt_code(r.means_code) == match code_node {
                Some(c) => node_text(vs[c]),
                None => None,
            }
            &&& opt_text(r.means_text) == match code_node {
                Some(c) => match attribute_spec(vs[c], "name"@) {
                    Some(n) => Some(n),
                    None => child_text_spec(vs, node, "InstructionNote"@),
                },
                None => child_text_spec(vs, node, "InstructionNote"@),
            }
            &&& opt_text(r.remittance) == child_text_spec(vs, node, "PaymentID"@)
            &&& means_read(vs, node, kids(doc, node, "PayeeFinancialAccount"@), r.means)
}

pub fn read_payment(doc: &Vec<XmlNode>, node: usize) -> (r: PaymentInstructions)
    requires
        node < doc.len(),
    ensures
        payment_read(doc@, node as int, r),
{
    let ghost vs = node_views(doc@);
    let code_node = child(doc, node, "PaymentMeansCode");
    let means_text = match code_node {
        Some(c) => match attribute(doc, c, "name") {
            Some(n) => Some(n),
            None => child_text(doc, node, "InstructionNote"),
        },
        None => child_text(doc, node, "InstructionNote"),
    };
    let accs = children(doc, node, "PayeeFinancialAccount");
    let ghost ks = kids(doc@, node as int, "PayeeFinancialAccount"@);
    let mut accounts: Vec<CreditTransfer> = Vec::new();
    let mut i: usize = 0;
    while i < accs.len()
        invariant
            i <= accs.len(),
            vs == node_views(doc@),
            accs@.len() == ks.len(),
            forall|k: int| 0 <= k < accs@.len() ==> accs@[k] as int == ks[k],
            forall|k: int| 0 <= k < accs@.len() ==> accs@[k] < doc.len(),
            accounts@.len() == i,
            forall|k: int| #![trigger accounts@[k]] 0 <= k < i ==> account_read(vs, ks[k], accounts@[k]),
        decreases accs.len() - i,
    {
        let acc = accs[i];
        let id = text_or_empty(child_text(doc, acc, "ID"));
        accounts.push(
            CreditTransfer {
                account_id: Identifier::new(id.as_str()),
                account_name: child_text(doc, acc, "Name"),
                provider: opt_child_text(doc, child(doc, acc, "FinancialInstitutionBranch"), "ID"),
            },
        );
        i = i + 1;
    }
    let means = match child(doc, node, "CardAccount") {
        Some(card) => match child_text(doc, card, "PrimaryAccountNumberID") {
            Some(pan) => Some(
                PaymentMeans::Card(PaymentCard { pan, holder: child_text(doc, card, "HolderName") }),
            ),
            None => None,
        },
        None => match child(doc, node, "PaymentMandate") {
            Some(man) => {
                let creditor = if accounts.len() > 0 {
                    Some(copy_identifier(&accounts[0].account_id))
                } else {
                    None
                };
                let debited = match opt_child_text(doc, child(doc, man, "PayerFinancialAccount"), "ID") {
                    Some(s) => Some(Identifier::new(s.as_str())),
                    None => None,
                };
                Some(
                    PaymentMeans::DirectDebit(
                        DirectDebit {
                            mandate: child_text(doc, man, "ID"),
                            creditor_id: creditor,
                            debited_account: debited,
                        },
                    ),
                )
            },
            None => {
                if accounts.len() > 0 {
                    Some(PaymentMeans::CreditTransfer(accounts))
                } else {
                    None
                }
            },
        },
    };
    let means_code = match code_node {
        Some(c) => code_of(text_of(doc, c)),
        None => None,
    };
    PaymentInstructions {
        means_code,
        means_text,
        remittance: child_text(doc, node, "PaymentID"),
        means,
    }
}

fn copy_text(s: &Option<String>) -> (r: Option<String>)
    ensures
        s is None <==> r is None,
        s matches Some(x) ==> (r matches Some(y) && y@ == x@),
{
    match s {
        Some(x) => Some(owned(x.as_str())),
        None => None,
    }
}

/// A field-for-field copy of an identifier.
pub fn copy_identifier(i: &Identifier) -> (r: Identifier)
    ensures
        r.value@ == i.value@,
        r.scheme is None <==> i.scheme is None,
        r.scheme_version is None <==> i.scheme_version is None,
{
    Identifier {
        value: owned(i.value.as_str()),
        scheme: copy_text(&i.scheme),
        scheme_version: copy_text(&i.scheme_version),
    }
}

/// Supporting document from an `AdditionalDocumentReference` node.
pub fn read_supporting(doc: &Vec<XmlNode>, node: usize) -> (r: SupportingDocument)
    requires
        node < doc.len(),
    ensures
        child_text_spec(node_views(doc@), node as int, "ID"@) matches Some(t) ==> r.id.0@ == t,
        child_text_spec(node_views(doc@), node as int, "ID"@) is None ==> r.id.0@ == Seq::<char>::empty(),
{
    let id = DocumentReference(text_or_empty(child_text(doc, node, "ID")));
    let att = child(doc, node, "Attachment");
    let attachment = match opt_child(doc, att, "EmbeddedDocumentBinaryObject") {
        Some(n) => {
            let mime = text_or_empty(attribute(doc, n, "mimeCode"));
            let filename = text_or_empty(attribute(doc, n, "filename"));
            let bytes = match text_of(doc, n) {
                Some(t) => match crate::formats::base64::b64_decode(t.as_str()) {
                    Some(b) => b,
                    None => Vec::new(),
                },
                None => Vec::new(),
            };
            Some(Attachment { bytes, mime, filename })
        },
        None => None,
    };
    let uri = opt_child_text(doc, opt_child(doc, att, "ExternalReference"), "URI");
    SupportingDocument {
        id,
        description: child_text(doc, node, "DocumentDescription"),
        uri,
        attachment,
    }
}

/// Document level allowance or charge from an `AllowanceCharge` node; a
/// missing amount reads as zero so the row still counts.
pub fn read_allowance(doc: &Vec<XmlNode>, node: usize, profile: Profile, malformed: &mut Vec<String>) -> (r: AllowanceCharge)
    requires
        node < doc.len(),
{
    let amount = match child_amount(doc, node, "Amount", malformed, "AllowanceCharge") {
        Some(a) => a,
        None => InvoiceAmount::zero(),
    };
    let tax = match child(doc, node, "TaxCategory") {
        Some(n) => Some(read_tax_cat(doc, n, profile)),
        None => None,
    };
    AllowanceCharge {
        amount,
        base: None,
        percent: None,
        reason: child_text(doc, node, "AllowanceChargeReason"),
        reason_code: code_of(child_text(doc, node, "AllowanceChargeReasonCode")),
        tax,
    }
}

/// Tax breakdown row from a `TaxSubtotal` node; a subtotal without a
/// category is still a row, with an empty code.
pub fn read_subtotal(doc: &Vec<XmlNode>, node: usize, profile: Profile, malformed: &mut Vec<String>) -> (r: TaxBreakdown)
    requires
        node < doc.len(),
    ensures
        ({
            let vs = node_views(doc@);
            let cat = named_child(vs, node as int, "TaxCategory"@);
            &&& cat is None ==> r.system == TaxSystem::Vat && r.category@ == Seq::<char>::empty() && r.rate is None
            &&& cat matches Some(c) ==> {
                &&& r.category@ == text_or_none(child_text_spec(vs, c, "ID"@))
                &&& opt_percent(r.rate) == parsed_opt(child_text_spec(vs, c, "Percent"@))
                &&& r.system == system_of_wire(profile, text_or_none(text_under(vs, named_child(vs, c, "TaxScheme"@), "ID"@)), r.category@)
            }
            &&& r.scheme@ == wire_scheme_of(profile, r.system, r.category@)
            &&& taxable_read(r.taxable, amount_read(vs, node as int, "TaxableAmount"@))
            &&& taxable_read(r.tax, amount_read(vs, node as int, "TaxAmount"@))
            &&& opt_text(r.exemption_reason) == text_under(vs, cat, "TaxExemptionReason"@)
            &&& opt_code(r.exemption_code) == text_under(vs, cat, "TaxExemptionReasonCode"@)
        }),
{
    let cat = child(doc, node, "TaxCategory");
    let tax = match cat {
        Some(n) => read_tax_cat(doc, n, profile),
        None => empty_category(),
    };
    let scheme = owned(wire_scheme(profile, tax.system, tax.code.as_str()));
    let taxable = match child_amount(doc, node, "TaxableAmount", malformed, "TaxSubtotal") {
        Some(a) => a,
        None => InvoiceAmount::zero(),
    };
    let tax_amount = match child_amount(doc, node, "TaxAmount", malformed, "TaxSubtotal") {
        Some(a) => a,
        None => InvoiceAmount::zero(),
    };
    TaxBreakdown {
        system: tax.system,
        scheme,
        category: Code::new(tax.code.as_str()),
        rate: tax.percent,
        taxable,
        tax: tax_amount,
        exemption_reason: opt_child_text(doc, cat, "TaxExemptionReason"),
        exemption_code: code_of(opt_child_text(doc, cat, "TaxExemptionReasonCode")),
    }
}

/// Document totals from a `LegalMonetaryTotal` node. Absent amounts stay
/// absent; the tax totals come from elsewhere.
pub fn read_totals(doc: &Vec<XmlNode>, node: usize, malformed: &mut Vec<String>) -> (r: DocumentTotals)
    requires
        node < doc.len(),
    ensures
        amount_dec(r.line_net) == amount_read(node_views(doc@), node as int, "LineExtensionAmount"@),
        amount_dec(r.allowance_total) == amount_read(node_views(doc@), node as int, "AllowanceTotalAmount"@),
        amount_dec(r.charge_total) == amount_read(node_views(doc@), node as int, "ChargeTotalAmount"@),
        amount_dec(r.without_tax) == amount_read(node_views(doc@), node as int, "TaxExclusiveAmount"@),
        amount_dec(r.with_tax) == amount_read(node_views(doc@), node as int, "TaxInclusiveAmount"@),
        amount_dec(r.paid) == amount_read(node_views(doc@), node as int, "PrepaidAmount"@),
        amount_dec(r.rounding) == amount_read(node_views(doc@), node as int, "PayableRoundingAmount"@),
        amount_dec(r.payable) == amount_read(node_views(doc@), node as int, "PayableAmount"@),
        r.tax_total is None,
        r.tax_total_accounting is None,
{
    let p = "LegalMonetaryTotal";
    let line_net = child_amount(doc, node, "LineExtensionAmount", malformed, p);
    let allowance_total = child_amount(doc, node, "AllowanceTotalAmount", malformed, p);
    let charge_total = child_amount(doc, node, "ChargeTotalAmount", malformed, p);
    let without_tax = child_amount(doc, node, "TaxExclusiveAmount", malformed, p);
    let with_tax = child_amount(doc, node, "TaxInclusiveAmount", malformed, p);
    let paid = child_amount(doc, node, "PrepaidAmount", malformed, p);
    let rounding = child_amount(doc, node, "PayableRoundingAmount", malformed, p);
    let payable = child_amount(doc, node, "PayableAmount", malformed, p);
    DocumentTotals {
        line_net,
        allowance_total,
        charge_total,
        without_tax,
        tax_total: None,
        tax_total_accounting: None,
        with_tax,
        paid,
        rounding,
        payable,
    }
}

/// A line allowance or charge is what node `j` reads as: its amount (zero
/// where absent or malformed), its reason and reason code; no base or rate.
pub open spec fn line_ac_read(vs: Seq<XmlNodeView>, j: int, a: LineAllowanceCharge) -> bool {
    &&& taxable_read(a.amount, amount_read(vs, j, "Amount"@))
    &&& a.base is None
    &&& a.percent is None
    &&& opt_text(a.reason) == child_text_spec(vs, j, "AllowanceChargeReason"@)
    &&& opt_code(a.reason_code) == child_text_spec(vs, j, "AllowanceChargeReasonCode"@)
}

/// Line allowance or charge from an `AllowanceCharge` node under a line.
pub fn read_line_ac(doc: &Vec<XmlNode>, node: usize, malformed: &mut Vec<String>) -> (r: LineAllowanceCharge)
    requires
        node < doc.len(),
    ensures
        line_ac_read(node_views(doc@), node as int, r),
{
    let amount = match child_amount(doc, node, "Amount", malformed, "LineAllowanceCharge") {
        Some(a) => a,
        None => InvoiceAmount::zero(),
    };
    LineAllowanceCharge {
        amount,
        base: None,
        percent: None,
        reason: child_text(doc, node, "AllowanceChargeReason"),
        reason_code: code_of(child_text(doc, node, "AllowanceChargeReasonCode")),
    }
}

/// An optional text parsed as a decimal after trimming.
pub open spec fn trimmed_parse(t: Option<Seq<char>>) -> Option<Dec> {
    match t {
        Some(x) => decimal_parse(trim(x)),
        None => None,
    }
}

/// The decimal of an optional unit price.
pub open spec fn unit_dec(u: Option<UnitPriceAmount>) -> Option<Dec> {
    match u {
        Some(x) => Some(x.dec()),
        None => None,
    }
}

/// The decimal of an optional quantity.
pub open spec fn qty_dec(q: Option<Quantity>) -> Option<Dec> {
    match q {
        Some(x) => Some(x.dec()),
        None => None,
    }
}

fn opt_unit_price(t: Option<String>) -> (r: Option<UnitPriceAmount>)
    ensures
        unit_dec(r) == trimmed_parse(opt_text(t)),
{
    match t {
        Some(s) => match UnitPriceAmount::parse(s.as_str()) {
            Ok(p) => Some(p),
            Err(_) => None,
        },
        None => None,
    }
}

fn opt_quantity(t: Option<String>) -> (r: Option<Quantity>)
    ensures
        qty_dec(r) == trimmed_parse(opt_text(t)),
{
    match t {
        Some(s) => match Quantity::parse(s.as_str()) {
            Ok(q) => Some(q),
            Err(_) => None,
        },
        None => None,
    }
}

/// The first node of `ks` whose charge indicator does not read as `true`:
/// the price discount.
pub open spec fn first_discount(vs: Seq<XmlNodeView>, ks: Seq<int>) -> Option<int>
    decreases ks.len(),
{
    if ks.len() == 0 {
        None
    } else {
        match first_discount(vs, ks.drop_last()) {
            Some(x) => Some(x),
            None => if indicator_of(vs, ks.last()) != Some(true) { Some(ks.last()) } else { None },
        }
    }
}

proof fn lemma_first_discount_stays(vs: Seq<XmlNodeView>, ks: Seq<int>, i: int, j: int)
    requires
        0 <= i <= j <= ks.len(),
        first_discount(vs, ks.take(i)) is Some,
    ensures
        first_discount(vs, ks.take(j)) == first_discount(vs, ks.take(i)),
    decreases j - i,
{
    if j > i {
        lemma_first_discount_stays(vs, ks, i, j - 1);
        assert(ks.take(j).drop_last() =~= ks.take(j - 1));
    }
}

/// The price that a `Price` node reads as: net price (zero where absent or
/// not a number), discount and gross price from the discount allowance,
/// base quantity and its unit.
pub open spec fn price_read(vs: Seq<XmlNodeView>, p: int, doc_len: int, price: Price) -> bool {
    let ac = first_discount(vs, named_children(vs, p, "AllowanceCharge"@, doc_len));
    &&& match trimmed_parse(child_text_spec(vs, p, "PriceAmount"@)) {
        Some(d) => price.net.dec() == d,
        None => price.net.dec().m() == 0 && price.net.dec().s() == 0,
    }
    &&& unit_dec(price.discount) == trimmed_parse(text_under(vs, ac, "Amount"@))
    &&& unit_dec(price.gross) == trimmed_parse(text_under(vs, ac, "BaseAmount"@))
    &&& qty_dec(price.base_qty) == trimmed_parse(child_text_spec(vs, p, "BaseQuantity"@))
    &&& opt_code(price.base_unit) == match named_child(vs, p, "BaseQuantity"@) {
        Some(b) => attribute_spec(vs[b], "unitCode"@),
        None => None,
    }
}

fn read_price(doc: &Vec<XmlNode>, p: usize) -> (r: Price)
    requires
        p < doc.len(),
    ensures
        price_read(node_views(doc@), p as int, doc@.len() as int, r),
{
    let net = match opt_unit_price(child_text(doc, p, "PriceAmount")) {
        Some(x) => x,
        None => UnitPriceAmount::zero(),
    };
    let acs = children(doc, p, "AllowanceCharge");
    let ghost ks = kids(doc@, p as int, "AllowanceCharge"@);
    let ghost vs = node_views(doc@);
    let mut ac: Option<usize> = None;
    let mut i: usize = 0;
    assert(ks.take(0) =~= Seq::<int>::empty());
    while i < acs.len() && ac.is_none()
        invariant
            i <= acs.len(),
            vs == node_views(doc@),
            acs@.len() == ks.len(),
            forall|k: int| 0 <= k < acs@.len() ==> acs@[k] as int == ks[k],
            forall|k: int| 0 <= k < acs@.len() ==> acs@[k] < doc.len(),
            ac matches Some(j) ==> j < doc.len(),
            opt_int(ac) == first_discount(vs, ks.take(i as int)),
        decreases acs.len() - i,
    {
        assert(ks.take(i + 1).drop_last() =~= ks.take(i as int));
        if charge_indicator(doc, acs[i]) != Some(true) {
            ac = Some(acs[i]);
        }
        i = i + 1;
    }
    proof {
        if ac is Some {
            lemma_first_discount_stays(vs, ks, i as int, ks.len() as int);
        }
        assert(ks.take(ks.len() as int) =~= ks);
    }
    let base = child(doc, p, "BaseQuantity");
    let base_unit = match base {
        Some(b) => code_of(attribute(doc, b, "unitCode")),
        None => None,
    };
    Price {
        net,
        discount: opt_unit_price(opt_child_text(doc, ac, "Amount")),
        gross: opt_unit_price(opt_child_text(doc, ac, "BaseAmount")),
        base_qty: opt_quantity(child_text(doc, p, "BaseQuantity")),
        base_unit,
    }
}

/// The charge indicator of node `p`, read as `xs:boolean`.
pub open spec fn indicator_of(vs: Seq<XmlNodeView>, p: int) -> Option<bool> {
    match child_text_spec(vs, p, "ChargeIndicator"@) {
        Some(t) => crate::formats::xml::xs_boolean(t),
        None => None,
    }
}

/// The nodes of `ks` whose charge indicator reads as `charge`, in order.
pub open spec fn acs_of(vs: Seq<XmlNodeView>, ks: Seq<int>, charge: bool) -> Seq<int>
    decreases ks.len(),
{
    if ks.len() == 0 {
        Seq::empty()
    } else if indicator_of(vs, ks.last()) == Some(charge) {
        acs_of(vs, ks.drop_last(), charge).push(ks.last())
    } else {
        acs_of(vs, ks.drop_last(), charge)
    }
}

/// The line allowances (or, for `charge`, the line charges) of a line node:
/// its `AllowanceCharge` children whose indicator reads as `charge`.
fn read_line_acs(doc: &Vec<XmlNode>, node: usize, charge: bool, malformed: &mut Vec<String>) -> (r: Vec<LineAllowanceCharge>)
    requires
        node < doc.len(),
    ensures
        ({
            let sel = acs_of(node_views(doc@), kids(doc@, node as int, "AllowanceCharge"@), charge);
            &&& r@.len() == sel.len()
            &&& forall|k: int| #![trigger r@[k]] 0 <= k < r@.len() ==> line_ac_read(node_views(doc@), sel[k], r@[k])
        }),
{
    let acs = children(doc, node, "AllowanceCharge");
    let ghost ks = kids(doc@, node as int, "AllowanceCharge"@);
    let ghost vs = node_views(doc@);
    let mut out: Vec<LineAllowanceCharge> = Vec::new();
    let mut i: usize = 0;
    while i < acs.len()
        invariant
            i <= acs.len(),
            vs == node_views(doc@),
            acs@.len() == ks.len(),
            forall|k: int| 0 <= k < acs@.len() ==> acs@[k] as int == ks[k],
            forall|k: int| 0 <= k < acs@.len() ==> acs@[k] < doc.len(),
            out@.len() == acs_of(vs, ks.take(i as int), charge).len(),
            forall|k: int| #![trigger out@[k]] 0 <= k < out@.len() ==> line_ac_read(vs, acs_of(vs, ks.take(i as int), charge)[k], out@[k]),
        decreases acs.len() - i,
    {
        assert(ks.take(i + 1).drop_last() =~= ks.take(i as int));
        if charge_indicator(doc, acs[i]) == Some(charge) {
            out.push(read_line_ac(doc, acs[i], malformed));
        }
        i = i + 1;
    }
    assert(ks.take(ks.len() as int) =~= ks);
    out
}

/// The element children of `p` with the local name, in document order.
pub open spec fn kids(doc: Seq<XmlNode>, p: int, name: Seq<char>) -> Seq<int> {
    named_children(node_views(doc), p, name, doc.len() as int)
}

/// The item attributes read from the `AdditionalItemProperty` children of
/// an optional item node: each child's name and value, or empty texts.
fn item_attributes(doc: &Vec<XmlNode>, item: Option<usize>) -> (r: Vec<ItemAttribute>)
    requires
        item matches Some(i) ==> i < doc.len(),
    ensures
        item is None ==> r@.len() == 0,
        item matches Some(it) ==> {
            let ks = kids(doc@, it as int, "AdditionalItemProperty"@);
            &&& r@.len() == ks.len()
            &&& forall|k: int| #![trigger r@[k]] 0 <= k < r@.len() ==> r@[k].name@ == text_or_none(
                child_text_spec(node_views(doc@), ks[k], "Name"@),
            ) && r@[k].value@ == text_or_none(child_text_spec(node_views(doc@), ks[k], "Value"@))
        },
{
    let mut out: Vec<ItemAttribute> = Vec::new();
    match item {
        Some(it) => {
            let props = children(doc, it, "AdditionalItemProperty");
            let ghost ks = kids(doc@, it as int, "AdditionalItemProperty"@);
            let mut i: usize = 0;
            while i < props.len()
                invariant
                    i <= props.len(),
                    props@.len() == ks.len(),
                    forall|k: int| 0 <= k < props@.len() ==> props@[k] as int == ks[k],
                    forall|k: int| 0 <= k < props@.len() ==> props@[k] < doc.len(),
                    out@.len() == i,
                    forall|k: int| #![trigger out@[k]] 0 <= k < i ==> out@[k].name@ == text_or_none(
                        child_text_spec(node_views(doc@), ks[k], "Name"@),
                    ) && out@[k].value@ == text_or_none(child_text_spec(node_views(doc@), ks[k], "Value"@)),
                decreases props.len() - i,
            {
                out.push(
                    ItemAttribute {
                        name: text_or_empty(child_text(doc, props[i], "Name")),
                        value: text_or_empty(child_text(doc, props[i], "Value")),
                    },
                );
                i = i + 1;
            }
        },
        None => {},
    }
    out
}

/// The classifications that the `CommodityClassification` nodes read as:
/// for each with an `ItemClassificationCode` child, its text (or empty) and
/// its `listID`.
pub open spec fn classes_read(vs: Seq<XmlNodeView>, ks: Seq<int>) -> Seq<(Seq<char>, Option<Seq<char>>)>
    decreases ks.len(),
{
    if ks.len() == 0 {
        Seq::empty()
    } else {
        let rest = classes_read(vs, ks.drop_last());
        match named_child(vs, ks.last(), "ItemClassificationCode"@) {
            Some(code) => rest.push((text_or_none(node_text(vs[code])), attribute_spec(vs[code], "listID"@))),
            None => rest,
        }
    }
}

/// An identifier read as a classification.
pub open spec fn class_matches(id: Identifier, c: (Seq<char>, Option<Seq<char>>)) -> bool {
    id.value@ == c.0 && opt_text(id.scheme) == c.1 && id.scheme_version is None
}

/// The commodity classifications of an optional item node.
fn item_classifications(doc: &Vec<XmlNode>, item: Option<usize>) -> (r: Vec<Identifier>)
    requires
        item matches Some(i) ==> i < doc.len(),
    ensures
        item is None ==> r@.len() == 0,
        item matches Some(it) ==> {
            let cs = classes_read(node_views(doc@), kids(doc@, it as int, "CommodityClassification"@));
            &&& r@.len() == cs.len()
            &&& forall|k: int| #![trigger r@[k]] 0 <= k < r@.len() ==> class_matches(r@[k], cs[k])
        },
{
    let mut out: Vec<Identifier> = Vec::new();
    match item {
        Some(it) => {
            let cs = children(doc, it, "CommodityClassification");
            let ghost ks = kids(doc@, it as int, "CommodityClassification"@);
            let ghost vs = node_views(doc@);
            let mut i: usize = 0;
            while i < cs.len()
                invariant
                    i <= cs.len(),
                    vs == node_views(doc@),
                    cs@.len() == ks.len(),
                    forall|k: int| 0 <= k < cs@.len() ==> cs@[k] as int == ks[k],
                    forall|k: int| 0 <= k < cs@.len() ==> cs@[k] < doc.len(),
                    out@.len() == classes_read(vs, ks.take(i as int)).len(),
                    forall|k: int| #![trigger out@[k]] 0 <= k < out@.len() ==> class_matches(out@[k], classes_read(vs, ks.take(i as int))[k]),
                decreases cs.len() - i,
            {
                assert(ks.take(i + 1).drop_last() =~= ks.take(i as int));
                match child(doc, cs[i], "ItemClassificationCode") {
                    Some(code) => {
                        out.push(
                            Identifier {
                                value: text_or_empty(text_of(doc, code)),
                                scheme: attribute(doc, code, "listID"),
                                scheme_version: None,
                            },
                        );
                    },
                    None => {},
                }
                i = i + 1;
            }
            assert(ks.take(ks.len() as int) =~= ks);
        },
        None => {},
    }
    out
}

/// A tax category is what [`read_tax_cat`] reads from node `j`.
pub open spec fn tax_cat_read(vs: Seq<XmlNodeView>, j: int, profile: Profile, t: TaxCategory) -> bool {
    &&& t.code@ == text_or_none(child_text_spec(vs, j, "ID"@))
    &&& opt_percent(t.percent) == parsed_opt(child_text_spec(vs, j, "Percent"@))
    &&& t.system == system_of_wire(profile, text_or_none(text_under(vs, named_child(vs, j, "TaxScheme"@), "ID"@)), t.code@)
}

/// The additional tax categories of an optional item node: every
/// `ClassifiedTaxCategory` but the first.
fn item_extra_tax(doc: &Vec<XmlNode>, item: Option<usize>, profile: Profile) -> (r: Vec<TaxCategory>)
    requires
        item matches Some(i) ==> i < doc.len(),
    ensures
        item is None ==> r@.len() == 0,
        item matches Some(it) ==> {
            let ks = kids(doc@, it as int, "ClassifiedTaxCategory"@);
            &&& ks.len() == 0 ==> r@.len() == 0
            &&& ks.len() > 0 ==> r@.len() == ks.len() - 1
            &&& forall|k: int| #![trigger r@[k]] 0 <= k < r@.len() ==> tax_cat_read(node_views(doc@), ks[k + 1], profile, r@[k])
        },
{
    let mut out: Vec<TaxCategory> = Vec::new();
    match item {
        Some(it) => {
            let cs = children(doc, it, "ClassifiedTaxCategory");
            let ghost ks = kids(doc@, it as int, "ClassifiedTaxCategory"@);
            let mut i: usize = 1;
            while i < cs.len()
                invariant
                    1 <= i,
                    i <= cs.len() || cs.len() == 0,
                    cs.len() == 0 ==> i == 1,
                    cs@.len() == ks.len(),
                    forall|k: int| 0 <= k < cs@.len() ==> cs@[k] as int == ks[k],
                    forall|k: int| 0 <= k < cs@.len() ==> cs@[k] < doc.len(),
                    out@.len() == i - 1,
                    forall|k: int| #![trigger out@[k]] 0 <= k < out@.len() ==> tax_cat_read(node_views(doc@), ks[k + 1], profile, out@[k]),
                decreases cs.len() - i,
            {
                let t = read_tax_cat(doc, cs[i], profile);
                out.push(t);
                i = i + 1;
            }
            assert(ks.len() > 0 ==> out@.len() == ks.len() - 1);
            assert(ks.len() == 0 ==> out@.len() == 0);
        },
        None => {},
    }
    out
}

/// The node named `name` under an optional node.
pub open spec fn under(vs: Seq<XmlNodeView>, p: Option<int>, name: Seq<char>) -> Option<int> {
    match p {
        Some(i) => named_child(vs, i, name),
        None => None,
    }
}

fn item_ident(doc: &Vec<XmlNode>, item: Option<usize>, name: &str) -> (r: Option<Identifier>)
    requires
        item matches Some(i) ==> i < doc.len(),
    ensures
        opt_ident_read(node_views(doc@), under(node_views(doc@), under(node_views(doc@), opt_int(item), name@), "ID"@), r),
{
    opt_ident(doc, opt_child(doc, opt_child(doc, item, name), "ID"))
}

/// A UBL invoice line as read from its node: every field from the child
/// that carries it, absent or empty where the child is missing; a missing
/// net amount reads as zero and a missing tax category as an empty code.
pub open spec fn ubl_line_read(vs: Seq<XmlNodeView>, node: int, profile: Profile, credit_note: bool, line: Line) -> bool {
    let item = named_child(vs, node, "Item"@);
    let q = named_child(vs, node, if credit_note { "CreditedQuantity"@ } else { "InvoicedQuantity"@ });
    let dr = named_child(vs, node, "DocumentReference"@);
    let ref_code = text_under(vs, dr, "DocumentTypeCode"@);
    let ks = named_children(vs, node, "AllowanceCharge"@, vs.len() as int);
    let al = acs_of(vs, ks, false);
    let ch = acs_of(vs, ks, true);
    &&& line.id@ == text_or_none(child_text_spec(vs, node, "ID"@))
    &&& line.name@ == text_or_none(text_under(vs, item, "Name"@))
    &&& taxable_read(line.net, amount_read(vs, node, "LineExtensionAmount"@))
    &&& match under(vs, item, "ClassifiedTaxCategory"@) {
        Some(n) => tax_cat_read(vs, n, profile, line.tax),
        None => line.tax.system == TaxSystem::Vat && line.tax.code@ == Seq::<char>::empty() && line.tax.percent is None,
    }
    &&& match q {
        Some(b) => qty_dec(line.quantity) == trimmed_parse(node_text(vs[b])) && opt_code(line.unit) == attribute_spec(vs[b], "unitCode"@),
        None => line.quantity is None && line.unit is None,
    }
    &&& match named_child(vs, node, "Price"@) {
        Some(p) => line.price matches Some(pr) && price_read(vs, p, vs.len() as int, pr),
        None => line.price is None,
    }
    &&& opt_text(line.note) == child_text_spec(vs, node, "Note"@)
    &&& opt_text(line.description) == text_under(vs, item, "Description"@)
    &&& match named_child(vs, node, "InvoicePeriod"@) {
        Some(p) => line.period matches Some(pp) && date_matches(pp.start, date_read(vs, p, "StartDate"@)) && date_matches(
            pp.end,
            date_read(vs, p, "EndDate"@),
        ),
        None => line.period is None,
    }
    &&& line.allowances@.len() == al.len()
    &&& forall|k: int| #![trigger al[k]] 0 <= k < al.len() ==> line_ac_read(vs, al[k], line.allowances@[k])
    &&& line.charges@.len() == ch.len()
    &&& forall|k: int| #![trigger ch[k]] 0 <= k < ch.len() ==> line_ac_read(vs, ch[k], line.charges@[k])
    &&& opt_ident_read(vs, under(vs, under(vs, item, "StandardItemIdentification"@), "ID"@), line.standard_id)
    &&& opt_ident_read(vs, under(vs, under(vs, item, "SellersItemIdentification"@), "ID"@), line.item_id)
    &&& opt_ident_read(vs, under(vs, under(vs, item, "BuyersItemIdentification"@), "ID"@), line.buyer_id)
    &&& opt_text(line.order_line) == text_under(vs, named_child(vs, node, "OrderLineReference"@), "LineID"@)
    &&& opt_text(line.accounting_reference) == child_text_spec(vs, node, "AccountingCost"@)
    &&& opt_code(line.origin_country) == text_under(vs, under(vs, item, "OriginCountry"@), "IdentificationCode"@)
    &&& opt_code(line.invoiced_object_code) == ref_code
    &&& (if ref_code == Some("130"@) {
        opt_ident_read(vs, under(vs, dr, "ID"@), line.invoiced_object)
    } else {
        line.invoiced_object is None
    })
    &&& match named_child(vs, node, "TaxTotal"@) {
        Some(t) => amount_dec(line.tax_total) == amount_read(vs, t, "TaxAmount"@),
        None => line.tax_total is None,
    }
    &&& match item {
        Some(it) => {
            let aks = named_children(vs, it, "AdditionalItemProperty"@, vs.len() as int);
            let cs = classes_read(vs, named_children(vs, it, "CommodityClassification"@, vs.len() as int));
            let tks = named_children(vs, it, "ClassifiedTaxCategory"@, vs.len() as int);
            &&& line.attributes@.len() == aks.len()
            &&& forall|k: int| #![trigger aks[k]] 0 <= k < aks.len() ==> line.attributes@[k].name@ == text_or_none(
                child_text_spec(vs, aks[k], "Name"@),
            ) && line.attributes@[k].value@ == text_or_none(child_text_spec(vs, aks[k], "Value"@))
            &&& line.classifications@.len() == cs.len()
            &&& forall|k: int| #![trigger cs[k]] 0 <= k < cs.len() ==> class_matches(line.classifications@[k], cs[k])
            &&& line.extra_tax@.len() == (if tks.len() == 0 { 0 } else { tks.len() - 1 })
            &&& forall|k: int| #![trigger line.extra_tax@[k]] 0 <= k < line.extra_tax@.len() ==> tax_cat_read(vs, tks[k + 1], profile, line.extra_tax@[k])
        },
        None => line.attributes@.len() == 0 && line.classifications@.len() == 0 && line.extra_tax@.len() == 0,
    }
}

/// Invoice line from an `InvoiceLine` / `CreditNoteLine` node. A missing
/// tax category is an empty code, not `S`; a missing net amount reads as zero.
#[verifier::rlimit(80)]
pub fn read_line(doc: &Vec<XmlNode>, node: usize, profile: Profile, credit_note: bool, malformed: &mut Vec<String>) -> (r: Line)
    requires
        node < doc.len(),
    ensures
        ubl_line_read(node_views(doc@), node as int, profile, credit_note, r),
        child_text_spec(node_views(doc@), node as int, "ID"@) matches Some(t) ==> r.id@ == t,
        child_text_spec(node_views(doc@), node as int, "ID"@) is None ==> r.id@ == Seq::<char>::empty(),
{
    let ghost vs = node_views(doc@);
    assert(vs.len() == doc@.len());
    let id = text_or_empty(child_text(doc, node, "ID"));
    let item = child(doc, node, "Item");
    let name = text_or_empty(opt_child_text(doc, item, "Name"));
    let net = match child_amount(doc, node, "LineExtensionAmount", malformed, "InvoiceLine") {
        Some(a) => a,
        None => InvoiceAmount::zero(),
    };
    let tax = match opt_child(doc, item, "ClassifiedTaxCategory") {
        Some(n) => read_tax_cat(doc, n, profile),
        None => empty_category(),
    };
    let qty_node = if credit_note {
        child(doc, node, "CreditedQuantity")
    } else {
        child(doc, node, "InvoicedQuantity")
    };
    let quantity = match qty_node {
        Some(q) => opt_quantity(text_of(doc, q)),
        None => None,
    };
    let unit = match qty_node {
        Some(q) => code_of(attribute(doc, q, "unitCode")),
        None => None,
    };
    let price = match child(doc, node, "Price") {
        Some(p) => Some(read_price(doc, p)),
        None => None,
    };
    let period = match child(doc, node, "InvoicePeriod") {
        Some(p) => Some(
            Period {
                start: child_date(doc, p, "StartDate", malformed, "InvoiceLine/InvoicePeriod"),
                end: child_date(doc, p, "EndDate", malformed, "InvoiceLine/InvoicePeriod"),
            },
        ),
        None => None,
    };
    let allowances = read_line_acs(doc, node, false, malformed);
    let charges = read_line_acs(doc, node, true, malformed);
    let doc_ref = child(doc, node, "DocumentReference");
    let ref_code = opt_child_text(doc, doc_ref, "DocumentTypeCode");
    let invoiced_object = match &ref_code {
        Some(c) => if str_eq(c.as_str(), "130") {
            opt_ident(doc, opt_child(doc, doc_ref, "ID"))
        } else {
            None
        },
        None => None,
    };
    let tax_total = match child(doc, node, "TaxTotal") {
        Some(t) => child_amount(doc, t, "TaxAmount", malformed, "InvoiceLine/TaxTotal"),
        None => None,
    };
    Line {
        id,
        name,
        net,
        tax,
        quantity,
        unit,
        price,
        note: child_text(doc, node, "Note"),
        description: opt_child_text(doc, item, "Description"),
        period,
        allowances,
        charges,
        standard_id: item_ident(doc, item, "StandardItemIdentification"),
        item_id: item_ident(doc, item, "SellersItemIdentification"),
        buyer_id: item_ident(doc, item, "BuyersItemIdentification"),
        order_line: opt_child_text(doc, child(doc, node, "OrderLineReference"), "LineID"),
        accounting_reference: child_text(doc, node, "AccountingCost"),
        attributes: item_attributes(doc, item),
        origin_country: code_of(opt_child_text(doc, opt_child(doc, item, "OriginCountry"), "IdentificationCode")),
        classifications: item_classifications(doc, item),
        invoiced_object,
        invoiced_object_code: code_of(ref_code),
        extra_tax: item_extra_tax(doc, item, profile),
        tax_total,
    }
}

/// Whether a name is one of the listed names.
pub open spec fn listed_name(mapped: Seq<&'static str>, name: Seq<char>) -> bool {
    exists|m: int| 0 <= m < mapped.len() && mapped[m]@ == name
}

/// `parent/name` for each element child of the node with identity `pid`
/// among the first `upto` nodes whose name is not listed, in document order.
pub open spec fn unmapped_of(vs: Seq<XmlNodeView>, pid: usize, parent: Seq<char>, mapped: Seq<&'static str>, upto: int) -> Seq<Seq<char>>
    decreases upto,
{
    if upto <= 0 {
        Seq::empty()
    } else {
        let rest = unmapped_of(vs, pid, parent, mapped, upto - 1);
        let v = vs[upto - 1];
        if v.element && v.parent == Some(pid) && !listed_name(mapped, v.local) {
            rest.push(parent + "/"@ + v.local)
        } else {
            rest
        }
    }
}

/// The element children of `node` whose local names are not in `mapped`,
/// each as `parent/name`.
pub fn unmapped_children(doc: &Vec<XmlNode>, node: usize, parent: &str, mapped: &Vec<&'static str>) -> (r: Vec<String>)
    requires
        node < doc.len(),
    ensures
        ({
            let want = unmapped_of(node_views(doc@), doc@[node as int].id, parent@, mapped@, doc@.len() as int);
            &&& r@.len() == want.len()
            &&& forall|k: int| #![trigger r@[k]] 0 <= k < r@.len() ==> r@[k]@ == want[k]
        }),
{
    let pid = doc[node].id;
    let ghost vs = node_views(doc@);
    let mut out: Vec<String> = Vec::new();
    let mut j: usize = 0;
    while j < doc.len()
        invariant
            j <= doc.len(),
            vs == node_views(doc@),
            pid == doc@[node as int].id,
            out@.len() == unmapped_of(vs, pid, parent@, mapped@, j as int).len(),
            forall|k: int| #![trigger out@[k]] 0 <= k < out@.len() ==> out@[k]@ == unmapped_of(vs, pid, parent@, mapped@, j as int)[k],
        decreases doc.len() - j,
    {
        assert(vs[j as int] == doc@[j as int]@);
        if doc[j].element && doc[j].parent == Some(pid) {
            let name = doc[j].local.as_str();
            let mut known = false;
            let mut m: usize = 0;
            while m < mapped.len()
                invariant
                    m <= mapped.len(),
                    known == exists|q: int| 0 <= q < m && mapped@[q]@ == name@,
                decreases mapped.len() - m,
            {
                if str_eq(mapped[m], name) {
                    known = true;
                }
                m = m + 1;
            }
            if !known {
                let mut s = owned(parent);
                s.append("/");
                s.append(name);
                out.push(s);
            }
        }
        j = j + 1;
    }
    out
}

/// `parent/name (duplicate)` for each name that occurs more than once as a child.
pub fn duplicate_singletons(doc: &Vec<XmlNode>, node: usize, parent: &str, names: &Vec<&'static str>, unmapped: &mut Vec<String>)
    requires
        node < doc.len(),
{
    let mut i: usize = 0;
    while i < names.len()
        invariant
            node < doc.len(),
            i <= names.len(),
        decreases names.len() - i,
    {
        let c = children(doc, node, names[i]);
        if c.len() > 1 {
            let mut s = owned(parent);
            s.append("/");
            s.append(names[i]);
            s.append(" (duplicate)");
            unmapped.push(s);
        }
        i = i + 1;
    }
}
} // verus!
