//! UBL 2.1 and UN/CEFACT CII on top of the semantic model: syntax names,
//! errors, XML hygiene and the syntax prohibitions.
use vstd::prelude::*;
use crate::report::Report;
use crate::text::{eq_ic, owned, str_eq, str_eq_ic, trim, trim_str};
use crate::invoice::Invoice;
use crate::profile::{Profile, profile_slug};
use crate::report::sorted;
use crate::validate::{checked_rules, ids_from, validate};
use crate::formats::nodes::{Hit, hits, lemma_appended_none, lemma_appended_trans};
use crate::formats::tree::{parse_xml, parsed_nodes};
use crate::formats::wire::{check_wire_currencies, currency_hits};
use crate::formats::peppol_syntax::peppol_hits;
use crate::formats::ubl_write::{ubl_shaped, ubl_text};
use crate::formats::cii_write::{cii_shaped, cii_text};
use crate::profile_proof::{ProfileMarker, Validated, passed, proved_from};
use crate::validate::validation_of;
use crate::invoice::stamped_from;
use crate::report::no_fatal;

pub mod xml;
pub mod prohibitions;
pub mod ubl;
pub mod tree;
pub mod ubl_read;
pub mod diff;
pub mod cii;
pub mod nodes;
pub mod wire;
pub mod peppol_syntax;
pub mod xml_out;
pub mod base64;
pub mod ubl_write;
pub mod cii_write;
pub use diff::diff_invoices;

verus! {

/// Error of a format operation.
#[derive(Debug, Clone, PartialEq)]
pub enum FormatError {
    /// The syntax name is not one this library writes.
    UnsupportedSyntax(String),
    /// The text is not a document this library reads.
    Parse(String),
    /// PINT-MY is UBL-only; CII is refused for it.
    CiiNotForProfile,
    /// The invoice failed validation.
    Semantic(SemanticReject),
}

/// Validation report of an invoice that was refused.
#[derive(Debug, Clone, PartialEq)]
pub struct SemanticReject(pub Report);

impl FormatError {
    /// Display text.
    pub fn to_string(&self) -> (r: String)
        ensures
            self matches FormatError::Parse(m) ==> r@ == "parse error: "@ + m@,
            self matches FormatError::UnsupportedSyntax(m) ==> r@ == "unsupported syntax "@ + m@,
            self is CiiNotForProfile ==> r@ == "CII D16B is not a PINT-MY syntax; PINT-MY Billing 1.3.0 is UBL-only"@,
    {
        match self {
            FormatError::UnsupportedSyntax(m) => {
                let mut s = owned("unsupported syntax ");
                s.append(m.as_str());
                s
            },
            FormatError::Parse(m) => {
                let mut s = owned("parse error: ");
                s.append(m.as_str());
                s
            },
            FormatError::CiiNotForProfile => owned(
                "CII D16B is not a PINT-MY syntax; PINT-MY Billing 1.3.0 is UBL-only",
            ),
            FormatError::Semantic(rej) => {
                let mut s = owned("invoice failed semantic validation:\n");
                let t = rej.0.to_string();
                s.append(t.as_str());
                s
            },
        }
    }
}

/// A read document: the invoice, the children that were seen and not
/// mapped, and the values that were malformed.
#[derive(Debug, Clone, PartialEq)]
pub struct Read {
    pub invoice: crate::invoice::Invoice,
    pub unmapped: Vec<String>,
    pub malformed: Vec<String>,
}

/// XML syntax of a document.
#[derive(Debug, Clone, Copy, PartialEq, Eq, Structural)]
pub enum Syntax {
    Ubl,
    Cii,
}

/// Syntax a name stands for, ignoring surrounding whitespace and ASCII case.
pub open spec fn syntax_for_name(s: Seq<char>) -> Option<Syntax> {
    let t = trim(s);
    if eq_ic(t, "ubl"@) || eq_ic(t, "ubl-2.1"@) || eq_ic(t, "xml"@) {
        Some(Syntax::Ubl)
    } else if eq_ic(t, "cii"@) || eq_ic(t, "d16b"@) || eq_ic(t, "un/cefact"@) {
        Some(Syntax::Cii)
    } else {
        None
    }
}

impl Syntax {
    /// Parse a syntax name.
    pub fn parse(s: &str) -> (r: Option<Syntax>)
        ensures
            r == syntax_for_name(s@),
    {
        let t = trim_str(s);
        if str_eq_ic(t, "ubl") || str_eq_ic(t, "ubl-2.1") || str_eq_ic(t, "xml") {
            Some(Syntax::Ubl)
        } else if str_eq_ic(t, "cii") || str_eq_ic(t, "d16b") || str_eq_ic(t, "un/cefact") {
            Some(Syntax::Cii)
        } else {
            None
        }
    }

    /// Short name.
    pub fn slug(self) -> (r: &'static str)
        ensures
            self == Syntax::Ubl ==> r@ == "ubl"@,
            self == Syntax::Cii ==> r@ == "cii"@,
    {
        match self {
            Syntax::Ubl => "ubl",
            Syntax::Cii => "cii",
        }
    }
}


/// The local name of the document element, after the XML declaration,
/// comments and processing instructions.
pub open spec fn document_local(xml: Seq<char>) -> Option<Seq<char>> {
    crate::formats::xml::first_tag_local(crate::formats::xml::after_prolog(xml))
}

/// What a traced read gives: a DTD, oversize input and deep nesting are
/// refused; otherwise a document element `Invoice` or `CreditNote` is read
/// as UBL, `CrossIndustryInvoice` as CII, and anything else is refused as
/// not parsing.
pub open spec fn traced_read(xml: &str, r: Result<Read, FormatError>) -> bool {
    if crate::text::contains(crate::text::lower_text(xml@), "<!doctype"@) || xml.len() > xml::MAX_INPUT_BYTES
        || crate::formats::xml::depth_at(xml@, xml::MAX_DEPTH as nat, xml@.len() as int) is None {
        r is Err
    } else {
        match document_local(xml@) {
            Some(l) => if l == "Invoice"@ || l == "CreditNote"@ {
                ubl::ubl_read_result(xml, r)
            } else if l == "CrossIndustryInvoice"@ {
                cii::cii_read_result(xml, r)
            } else {
                r matches Err(FormatError::Parse(_))
            },
            None => r matches Err(FormatError::Parse(_)),
        }
    }
}

/// The message that lists malformed values: `malformed amounts: ` and the
/// values joined by `; `.
pub open spec fn malformed_message(ms: Seq<Seq<char>>) -> Seq<char>
    decreases ms.len(),
{
    if ms.len() == 0 {
        "malformed amounts: "@
    } else if ms.len() == 1 {
        "malformed amounts: "@ + ms[0]
    } else {
        malformed_message(ms.drop_last()) + "; "@ + ms.last()
    }
}

/// What a plain read gives, from what the traced read gave: its error, an
/// error listing the malformed values where there are any, else the invoice.
pub open spec fn read_from_trace(t: Result<Read, FormatError>, r: Result<Invoice, FormatError>) -> bool {
    match t {
        Err(e) => r == Err::<Invoice, FormatError>(e),
        Ok(tr) => if tr.malformed@.len() > 0 {
            r matches Err(FormatError::Parse(m)) && m@ == malformed_message(
                Seq::new(tr.malformed@.len(), |i: int| tr.malformed@[i]@),
            )
        } else {
            r == Ok::<Invoice, FormatError>(tr.invoice)
        },
    }
}

/// Read a document, refusing a DTD, oversize input and deep nesting, and
/// dispatching on the local name of the document element (after comments
/// and processing instructions). Children that were not mapped and malformed
/// values are listed beside the invoice.
pub fn read_with_trace(xml: &str) -> (r: Result<Read, FormatError>)
    ensures
        traced_read(xml, r),
        crate::text::contains(crate::text::lower_text(xml@), "<!doctype"@) ==> r is Err,
        xml.len() > xml::MAX_INPUT_BYTES ==> r is Err,
{
    match xml::refuse_dtd(xml) {
        Err(e) => {
            return Err(e);
        },
        Ok(()) => {},
    }
    match xml::refuse_oversize(xml) {
        Err(e) => {
            return Err(e);
        },
        Ok(()) => {},
    }
    match xml::refuse_depth(xml) {
        Err(e) => {
            return Err(e);
        },
        Ok(()) => {},
    }
    let local = match xml::document_element_local(xml) {
        Some(l) => l,
        None => {
            return Err(FormatError::Parse(owned("document is not well-formed (no element)")));
        },
    };
    if str_eq(local, "Invoice") || str_eq(local, "CreditNote") {
        ubl::read(xml)
    } else if str_eq(local, "CrossIndustryInvoice") {
        cii::read(xml)
    } else {
        let mut m = owned("document element must be Invoice, CreditNote, or CrossIndustryInvoice, not ");
        m.append(local);
        Err(FormatError::Parse(m))
    }
}

/// Read a document; malformed values are an error here.
pub fn read(xml: &str) -> (r: Result<Invoice, FormatError>)
    ensures
        exists|t: Result<Read, FormatError>| traced_read(xml, t) && #[trigger] read_from_trace(t, r),
        crate::text::contains(crate::text::lower_text(xml@), "<!doctype"@) ==> r is Err,
{
    let t = read_with_trace(xml);
    let ghost tg = t;
    let r = match t {
        Err(e) => Err(e),
        Ok(traced) => {
            if traced.malformed.len() > 0 {
                let ghost ms = Seq::new(traced.malformed@.len(), |i: int| traced.malformed@[i]@);
                let mut m = owned("malformed amounts: ");
                let mut i: usize = 0;
                while i < traced.malformed.len()
                    invariant
                        i <= traced.malformed.len(),
                        ms == Seq::new(traced.malformed@.len(), |i: int| traced.malformed@[i]@),
                        i == 0 ==> m@ == "malformed amounts: "@,
                        i > 0 ==> m@ == malformed_message(ms.take(i as int)),
                    decreases traced.malformed.len() - i,
                {
                    proof {
                        assert(ms.take(i + 1).drop_last() =~= ms.take(i as int));
                    }
                    if i > 0 {
                        m.append("; ");
                    }
                    m.append(traced.malformed[i].as_str());
                    i = i + 1;
                    proof {
                        if i == 1 {
                            assert(ms.take(1)[0] == ms[0]);
                        }
                    }
                }
                proof {
                    assert(ms.take(i as int) =~= ms);
                }
                Err(FormatError::Parse(m))
            } else {
                Ok(traced.invoice)
            }
        },
    };
    proof {
        assert(read_from_trace(tg, r));
    }
    r
}

/// What a plain read of the document may give.
pub open spec fn read_gives(xml: &str, rd: Result<Invoice, FormatError>) -> bool {
    exists|t: Result<Read, FormatError>| traced_read(xml, t) && #[trigger] read_from_trace(t, rd)
}

/// Semantic difference of two documents (see [`diff::diff_invoices`]): the
/// error of the first read that fails, else the difference of the two
/// invoices, `no semantic difference` exactly when they agree on every
/// compared facet.
pub fn diff(left_xml: &str, right_xml: &str) -> (r: Result<String, FormatError>)
    ensures
        exists|a: Result<Invoice, FormatError>| #[trigger] read_gives(left_xml, a) && match a {
            Err(e) => r == Err::<String, FormatError>(e),
            Ok(l) => exists|b: Result<Invoice, FormatError>| #[trigger] read_gives(right_xml, b) && diffed(l, b, r),
        },
{
    let a = read(left_xml);
    let ghost ag = a;
    assert(read_gives(left_xml, ag));
    let left = match a {
        Ok(i) => i,
        Err(e) => {
            return Err(e);
        },
    };
    let b = read(right_xml);
    let ghost bg = b;
    assert(read_gives(right_xml, bg));
    let right = match b {
        Ok(i) => i,
        Err(e) => {
            assert(diffed(left, bg, Err(e)));
            return Err(e);
        },
    };
    let d = diff::diff_invoices(&left, &right);
    assert(diffed(left, bg, Ok(d)));
    Ok(d)
}

/// The difference result once the first document was read: the second
/// read's error, else the difference of the two invoices.
pub open spec fn diffed(l: Invoice, b: Result<Invoice, FormatError>, r: Result<String, FormatError>) -> bool {
    match b {
        Err(e) => r == Err::<String, FormatError>(e),
        Ok(rt) => r matches Ok(s) && ((s@ == "no semantic difference"@) <==> diff::no_difference(l, rt)),
    }
}

/// The findings read from the document itself for an invoice: the currency
/// codes of every amount, then, for Peppol BIS 3, the syntax rules.
pub open spec fn document_hits(xml: Seq<char>, inv: Invoice) -> Seq<Hit> {
    let peppol = inv.profile == Profile::PeppolBis3;
    match parsed_nodes(xml) {
        Some(doc) => currency_hits(doc, inv.currency@, peppol, doc.len() as int) + if peppol {
            peppol_hits(doc)
        } else {
            Seq::empty()
        },
        None => Seq::empty(),
    }
}

/// `rep` is the validation of the invoice read from `xml`: the model rules'
/// findings in report order, each under the id of a checked rule, then the
/// findings read from the document, all fatal.
pub open spec fn validated_document(rep: Report, inv: Invoice, xml: Seq<char>) -> bool {
    let wire = document_hits(xml, inv);
    let n = rep.findings@.len() - wire.len();
    &&& rep.profile_slug@ == profile_slug(inv.profile)
    &&& rep.rules_checked == checked_rules(inv.profile).len()
    &&& 0 <= n
    &&& sorted(rep.findings@.subrange(0, n))
    &&& ids_from(rep.findings@.subrange(0, n), checked_rules(inv.profile))
    &&& hits(rep.findings@.subrange(n, rep.findings@.len() as int)) == wire
    &&& forall|i: int| n <= i < rep.findings@.len() ==> (#[trigger] rep.findings@[i]).severity == crate::report::Severity::Fatal
}

/// `rep` is the validation of some invoice read from `xml`, under the named
/// profile when one is named.
pub open spec fn validated_xml_report(rep: Report, xml: Seq<char>, profile: Option<Profile>) -> bool {
    exists|inv: Invoice|
        (profile is Some ==> inv.profile == profile->Some_0) && #[trigger] validated_document(rep, inv, xml)
}

/// What validating a document gives: the read's error, or the validation
/// of the invoice read, with its profile forced when one is named.
pub open spec fn validated_xml(xml: &str, profile: Option<Profile>, r: Result<Report, FormatError>) -> bool {
    exists|t: Result<Read, FormatError>, rd: Result<Invoice, FormatError>|
        traced_read(xml, t) && #[trigger] read_from_trace(t, rd) && match rd {
            Err(e) => r == Err::<Report, FormatError>(e),
            Ok(inv) => r matches Ok(rep) && validated_document(rep, forced_profile(inv, profile), xml@),
        }
}

/// Read a document, force the profile when one is named, run the model
/// rules, then the rules that read the document itself (currency codes of
/// every amount; Peppol BIS 3 syntax).
pub fn validate_xml(xml: &str, profile: Option<Profile>) -> (r: Result<Report, FormatError>)
    ensures
        validated_xml(xml, profile, r),
        crate::text::contains(crate::text::lower_text(xml@), "<!doctype"@) ==> r is Err,
        r matches Ok(rep) ==> validated_xml_report(rep, xml@, profile),
{
    let rd = read(xml);
    let ghost rdg = rd;
    let ghost t = choose|t: Result<Read, FormatError>| traced_read(xml, t) && #[trigger] read_from_trace(t, rdg);
    assert(traced_read(xml, t) && read_from_trace(t, rdg));
    let mut invoice = match rd {
        Ok(i) => i,
        Err(e) => {
            return Err(e);
        },
    };
    let ghost read_inv = invoice;
    if let Some(p) = profile {
        invoice.profile = p;
    }
    assert(invoice == forced_profile(read_inv, profile));
    let mut report = validate(&invoice);
    let ghost r0 = report;
    let peppol = invoice.profile == Profile::PeppolBis3;
    let ghost h1: Seq<Hit> = Seq::empty();
    match parse_xml(xml) {
        Ok(doc) => {
            check_wire_currencies(&doc, invoice.currency.as_str(), peppol, &mut report);
            proof {
                h1 = currency_hits(parsed_nodes(xml@)->Some_0, invoice.currency@, peppol, parsed_nodes(xml@)->Some_0.len() as int);
            }
        },
        Err(_) => {
            proof {
                lemma_appended_none(report);
            }
        },
    }
    let ghost r1 = report;
    peppol_syntax::apply(xml, &invoice, &mut report);
    proof {
        let h2 = if peppol && parsed_nodes(xml@) is Some {
            peppol_hits(parsed_nodes(xml@)->Some_0)
        } else {
            Seq::empty()
        };
        if !(peppol && parsed_nodes(xml@) is Some) {
            lemma_appended_none(report);
        }
        lemma_appended_trans(r0, r1, report, h1, h2);
        if parsed_nodes(xml@) is None {
            assert(h1 + h2 =~= Seq::<Hit>::empty());
        }
        assert(h1 + h2 == document_hits(xml@, invoice));
        let n = r0.findings@.len() as int;
        assert(report.findings@.subrange(0, n) == r0.findings@);
    }
    report.profile_slug = invoice.profile.slug();
    proof {
        assert(validated_document(report, invoice, xml@));
        assert(validated_xml_report(report, xml@, profile));
    }
    Ok(report)
}

/// A written document of the invoice in the syntax.
pub open spec fn written_as(invoice: Invoice, syntax: Syntax, t: Seq<char>) -> bool {
    match syntax {
        Syntax::Ubl => ubl_shaped(invoice, t),
        Syntax::Cii => cii_shaped(t),
    }
}

/// The text the writer of the syntax gives for the invoice.
pub open spec fn written_text(invoice: Invoice, syntax: Syntax) -> Seq<char> {
    match syntax {
        Syntax::Ubl => ubl_text(invoice),
        Syntax::Cii => cii_text(invoice),
    }
}

/// Write without validating. PINT-MY is refused in CII; production writes
/// go through [`write_validated`].
pub fn write_unchecked(invoice: &Invoice, syntax: Syntax) -> (r: Result<String, FormatError>)
    ensures
        r is Err <==> syntax == Syntax::Cii && invoice.profile == Profile::PintMy,
        r matches Err(e) ==> e is CiiNotForProfile,
        r matches Ok(x) ==> written_as(*invoice, syntax, x@),
        r matches Ok(x) ==> x@ == written_text(*invoice, syntax),
{
    match syntax {
        Syntax::Ubl => Ok(ubl_write::write_unchecked(invoice)),
        Syntax::Cii => cii_write::write_unchecked(invoice),
    }
}

/// Write a validated invoice, with its profile (and BT-24, BT-23) stamped
/// from the proof's profile.
pub fn write_validated<P: ProfileMarker>(proof: &Validated<P>, syntax: Syntax) -> (r: Result<String, FormatError>)
    ensures
        r is Err <==> syntax == Syntax::Cii && P::marked() == Profile::PintMy,
        r matches Err(e) ==> e is CiiNotForProfile,
        r matches Ok(x) ==> exists|i: Invoice| i.profile == P::marked() && #[trigger] written_as(i, syntax, x@),
{
    let mut invoice = proof.invoice().clone();
    invoice.stamp_profile(P::profile());
    let r = write_unchecked(&invoice, syntax);
    proof {
        if r is Ok {
            assert(written_as(invoice, syntax, r->Ok_0@));
        }
    }
    r
}

/// What converting an invoice gives: PINT-MY is refused in CII before
/// anything else; an unknown profile is refused with its validation report;
/// otherwise the invoice stamped with its own profile is validated, refused
/// with a report that has a fatal finding, or written, when it passed, as
/// the writer of the syntax writes it.
pub open spec fn converted(invoice: Invoice, to: Syntax, r: Result<String, FormatError>) -> bool {
    let refused_cii = to == Syntax::Cii && invoice.profile == Profile::PintMy;
    &&& (r matches Err(FormatError::CiiNotForProfile)) <==> refused_cii
    &&& !refused_cii && invoice.profile == Profile::Unknown ==> (r matches Err(FormatError::Semantic(SemanticReject(rep)))
        && validation_of(invoice, rep) && rep.profile_slug@ == "unknown"@)
    &&& !refused_cii && invoice.profile != Profile::Unknown ==> (r matches Err(FormatError::Semantic(SemanticReject(rep)))
        ==> exists|i: Invoice| proved_from(i, invoice, invoice.profile) && #[trigger] validation_of(i, rep) && !no_fatal(
        rep.findings@,
    ))
    &&& r matches Err(e) ==> e is CiiNotForProfile || e is Semantic
    &&& r matches Ok(x) ==> invoice.profile != Profile::Unknown && exists|i: Invoice, w: Invoice|
        #![trigger proved_from(i, invoice, invoice.profile), written_text(w, to)]
        proved_from(i, invoice, invoice.profile) && passed(i) && stamped_from(w, i, invoice.profile) && written_text(w, to) == x@
}

/// Validate under `P` and write, or hand back the report.
fn prove_write<P: ProfileMarker>(invoice: Invoice, syntax: Syntax) -> (r: Result<String, FormatError>)
    requires
        !(syntax == Syntax::Cii && P::marked() == Profile::PintMy),
    ensures
        r matches Err(FormatError::Semantic(SemanticReject(rep))) ==> exists|i: Invoice| proved_from(i, invoice, P::marked())
            && #[trigger] validation_of(i, rep) && !no_fatal(rep.findings@),
        r matches Err(e) ==> e is Semantic,
        r matches Ok(x) ==> exists|i: Invoice, w: Invoice| #![trigger proved_from(i, invoice, P::marked()), written_text(w, syntax)]
            proved_from(i, invoice, P::marked()) && passed(i) && stamped_from(w, i, P::marked()) && written_text(w, syntax) == x@,
{
    match Validated::<P>::new(invoice) {
        Ok(proof) => {
            let proved = proof.into_inner();
            let ghost pg = proved;
            let mut stamped = proved;
            stamped.stamp_profile(P::profile());
            assert(stamped.profile == P::marked());
            let w = write_unchecked(&stamped, syntax);
            assert(w is Ok);
            assert(proved_from(pg, invoice, P::marked()) && passed(pg) && stamped_from(stamped, pg, P::marked())
                && written_text(stamped, syntax) == w->Ok_0@);
            w
        },
        Err(rejected) => {
            proof {
                assert(proved_from(rejected.0, invoice, P::marked()));
                assert(validation_of(rejected.0, rejected.1));
                assert(!no_fatal(rejected.1.findings@));
            }
            let e = Err(FormatError::Semantic(SemanticReject(rejected.1)));
            assert(e matches Err(FormatError::Semantic(SemanticReject(rep))) && rep == rejected.1);
            e
        },
    }
}

/// Write an invoice that was read, only when it validates under its own
/// profile: PINT-MY is refused in CII before anything else; an unknown
/// profile is refused with its validation report.
pub fn convert_invoice(invoice: Invoice, to: Syntax) -> (r: Result<String, FormatError>)
    ensures
        converted(invoice, to, r),
{
    if to == Syntax::Cii && invoice.profile == Profile::PintMy {
        return Err(FormatError::CiiNotForProfile);
    }
    let ghost inv = invoice;
    match invoice.profile {
        Profile::En16931 => prove_write::<crate::profile_proof::En16931>(invoice, to),
        Profile::PeppolBis3 => prove_write::<crate::profile_proof::PeppolBis3>(invoice, to),
        Profile::Pint => prove_write::<crate::profile_proof::Pint>(invoice, to),
        Profile::PintMy => prove_write::<crate::profile_proof::PintMy>(invoice, to),
        Profile::Unknown => {
            let report = validate(&invoice);
            proof {
                reveal_strlit("unknown");
            }
            Err(FormatError::Semantic(SemanticReject(report)))
        },
    }
}

/// `invoice` with its profile replaced by the forced one, when one is named.
pub open spec fn forced_profile(invoice: Invoice, forced: Option<Profile>) -> Invoice {
    match forced {
        Some(p) => Invoice { profile: p, ..invoice },
        None => invoice,
    }
}

/// What converting a document gives: the read's error, or the conversion of
/// the invoice read, with its profile forced when one is named.
pub open spec fn converted_xml(xml: &str, to: Syntax, forced: Option<Profile>, r: Result<String, FormatError>) -> bool {
    exists|t: Result<Read, FormatError>, rd: Result<Invoice, FormatError>|
        traced_read(xml, t) && #[trigger] read_from_trace(t, rd) && match rd {
            Err(e) => r == Err::<String, FormatError>(e),
            Ok(inv) => converted(forced_profile(inv, forced), to, r),
        }
}

/// Read a document, force the profile when one is named, and write it in
/// the other syntax only when it validates (see [`convert_invoice`]).
pub fn convert_with_profile(xml: &str, to: Syntax, forced: Option<Profile>) -> (r: Result<String, FormatError>)
    ensures
        converted_xml(xml, to, forced, r),
        crate::text::contains(crate::text::lower_text(xml@), "<!doctype"@) ==> r is Err,
        to == Syntax::Cii && forced == Some(Profile::PintMy) ==> r is Err,
        forced == Some(Profile::Unknown) ==> r is Err,
{
    let rd = read(xml);
    let ghost rdg = rd;
    let mut invoice = match rd {
        Ok(i) => i,
        Err(e) => {
            proof {
                let t = choose|t: Result<Read, FormatError>| traced_read(xml, t) && #[trigger] read_from_trace(t, rdg);
                assert(traced_read(xml, t) && read_from_trace(t, rdg));
            }
            return Err(e);
        },
    };
    let ghost read_inv = invoice;
    if let Some(p) = forced {
        invoice.profile = p;
    }
    assert(invoice == forced_profile(read_inv, forced));
    let r = convert_invoice(invoice, to);
    proof {
        let t = choose|t: Result<Read, FormatError>| traced_read(xml, t) && #[trigger] read_from_trace(t, rdg);
        assert(traced_read(xml, t) && read_from_trace(t, rdg));
    }
    r
}

/// Read a document and write it in the other syntax under its own profile.
pub fn convert(xml: &str, to: Syntax) -> (r: Result<String, FormatError>)
    ensures
        converted_xml(xml, to, None, r),
        crate::text::contains(crate::text::lower_text(xml@), "<!doctype"@) ==> r is Err,
{
    convert_with_profile(xml, to, None)
}

/// The model paths that a UBL to CII to UBL round trip may still lose:
/// empty postal addresses of seller and buyer, and the PINT-MY line extras
/// that CII does not carry.
pub fn cii_dropped() -> (r: Vec<&'static str>)
    ensures
        r@.len() == 4,
        r@[0]@ == "seller.address"@,
        r@[1]@ == "buyer.address"@,
        r@[2]@ == "lines.extra_tax"@,
        r@[3]@ == "lines.tax_total"@,
{
    vec!["seller.address", "buyer.address", "lines.extra_tax", "lines.tax_total"]
}

/// The terms that the prohibitions of the syntax find in a written document.
pub open spec fn written_hits(t: Seq<char>, syntax: Syntax) -> Seq<Seq<char>> {
    match parsed_nodes(t) {
        Some(doc) => prohibitions::scan_hits(doc, syntax, doc.len() as int),
        None => Seq::empty(),
    }
}

/// What a write in the syntax leaves out: for UBL a credit note's due date,
/// then the prohibition hits found in the written document (none for a
/// PINT-MY invoice in CII, which is not written).
pub fn write_drops(invoice: &Invoice, syntax: Syntax) -> (r: Vec<String>)
    ensures
        ({
            let base: Seq<Seq<char>> = if syntax == Syntax::Ubl && invoice.kind == crate::kind::DocumentKind::CreditNote
                && invoice.due_date is Some {
                seq!["CreditNote/DueDate"@]
            } else {
                Seq::empty()
            };
            &&& syntax == Syntax::Cii && invoice.profile == Profile::PintMy ==> prohibitions::texts(r@) == base
            &&& !(syntax == Syntax::Cii && invoice.profile == Profile::PintMy) ==> exists|t: Seq<char>|
                #[trigger] written_as(*invoice, syntax, t) && prohibitions::texts(r@) == base + written_hits(t, syntax)
        }),
{
    let mut drops = match syntax {
        Syntax::Ubl => ubl_write::write_drops(invoice),
        Syntax::Cii => Vec::new(),
    };
    let ghost base = prohibitions::texts(drops@);
    proof {
        if syntax == Syntax::Ubl && drops@.len() == 1 {
            assert(base =~= seq!["CreditNote/DueDate"@]);
        } else {
            assert(base =~= Seq::<Seq<char>>::empty());
        }
    }
    if syntax == Syntax::Cii && invoice.profile == Profile::PintMy {
        return drops;
    }
    match write_unchecked(invoice, syntax) {
        Ok(xml) => {
            let mut hits = prohibitions::scan_written(xml.as_str(), syntax);
            let ghost h = prohibitions::texts(hits@);
            drops.append(&mut hits);
            proof {
                assert(prohibitions::texts(drops@) =~= base + h);
                assert(h == written_hits(xml@, syntax));
                assert(written_as(*invoice, syntax, xml@));
            }
        },
        Err(_) => {},
    }
    drops
}
} // verus!
