//! Peppol BIS Billing 3.0 checks (PEPPOL-EN16931-*). They run only on the
//! Peppol profile; each appends findings under its own id only.
use vstd::prelude::*;

use crate::bt::{BtId, Group, Path};
use crate::checks::{fires_once, fires_some, opt_text_blank, text_blank};
use crate::amount::UnitPriceAmount;
use crate::dec::{Dec, abs_int, dec_difference, dec_product, dec_quotient, dec_sum, fits96, lemma_same_value_at, max_scale, pow10, sub_fits, unit_dec, hundred_dec};
use crate::emit::{added, emitted, fatal_at, fatal_msg, lemma_emitted_none, lemma_emitted_trans};
use crate::identifier::Identifier;
use crate::invoice::{Invoice, Line, LineAllowanceCharge, Price};
use crate::kind::DocumentKind;
use crate::payment::PaymentMeans;
use crate::profile::{PEPPOL_BIS3_PREFIX, Profile};
use crate::report::Report;
use crate::text::{blank, concat3, ends_with, eq_ic, is_blank, starts_with, str_eq, str_eq_ic, str_ends_with, str_starts_with};

verus! {

/// An electronic address that is absent or blank.
pub open spec fn address_blank(o: Option<Identifier>) -> bool {
    match o {
        Some(i) => blank(i.value@),
        None => true,
    }
}

fn address_is_blank(o: &Option<Identifier>) -> (r: bool)
    ensures
        r == address_blank(*o),
{
    match o {
        Some(i) => is_blank(i.value.as_str()),
        None => true,
    }
}

/// When [`r001`] appends a finding: exactly when this holds, under [`r001_bound`].
pub open spec fn r001_fires(inv: Invoice) -> bool {
    inv.profile == Profile::PeppolBis3 && opt_text_blank(inv.business_process)
}

/// Where [`r001`] states when it appends a finding.
pub open spec fn r001_bound(inv: Invoice) -> bool {
    true
}

/// R001: on Peppol the business process (BT-23) is given.
pub fn r001(inv: &Invoice, report: &mut Report)
    ensures
        emitted(*old(report), *final(report), "PEPPOL-EN16931-R001"@),
        fires_once(*old(report), *final(report), inv.profile == Profile::PeppolBis3 && opt_text_blank(inv.business_process)),
{
    if inv.profile == Profile::PeppolBis3 && text_blank(&inv.business_process) {
        fatal_at(report, "PEPPOL-EN16931-R001", Path::term(BtId(23)), "Business process type (BT-23 / ProfileID) shall be present");
    } else {
        proof {
            lemma_emitted_none(*report, "PEPPOL-EN16931-R001"@);
        }
    }
}

/// When [`r007`] appends a finding: exactly when this holds, under [`r007_bound`].
pub open spec fn r007_fires(inv: Invoice) -> bool {
    inv.profile == Profile::PeppolBis3 && (inv.business_process matches Some(
        p,
    ) && !(starts_with(p@, "urn:fdc:peppol.eu:2017:poacc:billing:"@) && ends_with(p@, ":1.0"@)))
}

/// Where [`r007`] states when it appends a finding.
pub open spec fn r007_bound(inv: Invoice) -> bool {
    true
}

/// R007: on Peppol a business process is `urn:fdc:peppol.eu:2017:poacc:billing:NN:1.0`.
pub fn r007(inv: &Invoice, report: &mut Report)
    ensures
        emitted(*old(report), *final(report), "PEPPOL-EN16931-R007"@),
        fires_once(*old(report), *final(report), inv.profile == Profile::PeppolBis3 && (inv.business_process matches Some(
            p,
        ) && !(starts_with(p@, "urn:fdc:peppol.eu:2017:poacc:billing:"@) && ends_with(p@, ":1.0"@)))),
{
    if inv.profile == Profile::PeppolBis3 {
        match &inv.business_process {
            Some(p) => {
                if !(str_starts_with(p.as_str(), "urn:fdc:peppol.eu:2017:poacc:billing:") && str_ends_with(p.as_str(), ":1.0")) {
                    fatal_msg(
                        report,
                        "PEPPOL-EN16931-R007",
                        Path::term(BtId(23)),
                        concat3("BT-23 ", p.as_str(), " is not urn:fdc:peppol.eu:2017:poacc:billing:NN:1.0"),
                    );
                    return;
                }
            },
            None => {},
        }
    }
    proof {
        lemma_emitted_none(*report, "PEPPOL-EN16931-R007"@);
    }
}

/// When [`r004`] appends a finding: exactly when this holds, under [`r004_bound`].
pub open spec fn r004_fires(inv: Invoice) -> bool {
    inv.profile == Profile::PeppolBis3 && (inv.specification_id matches Some(
        s,
    ) && !starts_with(s@, PEPPOL_BIS3_PREFIX@))
}

/// Where [`r004`] states when it appends a finding.
pub open spec fn r004_bound(inv: Invoice) -> bool {
    true
}

/// R004: on Peppol a specification identifier starts with the Peppol BIS 3.0 identifier.
pub fn r004(inv: &Invoice, report: &mut Report)
    ensures
        emitted(*old(report), *final(report), "PEPPOL-EN16931-R004"@),
        fires_once(*old(report), *final(report), inv.profile == Profile::PeppolBis3 && (inv.specification_id matches Some(
            s,
        ) && !starts_with(s@, PEPPOL_BIS3_PREFIX@))),
{
    if inv.profile == Profile::PeppolBis3 {
        match &inv.specification_id {
            Some(s) => {
                if !str_starts_with(s.as_str(), PEPPOL_BIS3_PREFIX) {
                    fatal_at(
                        report,
                        "PEPPOL-EN16931-R004",
                        Path::term(BtId(24)),
                        "BT-24 shall start with the official Peppol BIS Billing 3.0 identifier",
                    );
                    return;
                }
            },
            None => {},
        }
    }
    proof {
        lemma_emitted_none(*report, "PEPPOL-EN16931-R004"@);
    }
}

/// When [`r010`] appends a finding: exactly when this holds, under [`r010_bound`].
pub open spec fn r010_fires(inv: Invoice) -> bool {
    inv.profile == Profile::PeppolBis3 && address_blank(inv.buyer.electronic_address)
}

/// Where [`r010`] states when it appends a finding.
pub open spec fn r010_bound(inv: Invoice) -> bool {
    true
}

/// R010: on Peppol the buyer has an electronic address.
pub fn r010(inv: &Invoice, report: &mut Report)
    ensures
        emitted(*old(report), *final(report), "PEPPOL-EN16931-R010"@),
        fires_once(*old(report), *final(report), inv.profile == Profile::PeppolBis3 && address_blank(inv.buyer.electronic_address)),
{
    if inv.profile == Profile::PeppolBis3 && address_is_blank(&inv.buyer.electronic_address) {
        fatal_at(report, "PEPPOL-EN16931-R010", Path::term(BtId(49)), "Buyer electronic address MUST be provided");
    } else {
        proof {
            lemma_emitted_none(*report, "PEPPOL-EN16931-R010"@);
        }
    }
}

/// When [`r020`] appends a finding: exactly when this holds, under [`r020_bound`].
pub open spec fn r020_fires(inv: Invoice) -> bool {
    inv.profile == Profile::PeppolBis3 && address_blank(inv.seller.electronic_address)
}

/// Where [`r020`] states when it appends a finding.
pub open spec fn r020_bound(inv: Invoice) -> bool {
    true
}

/// R020: on Peppol the seller has an electronic address.
pub fn r020(inv: &Invoice, report: &mut Report)
    ensures
        emitted(*old(report), *final(report), "PEPPOL-EN16931-R020"@),
        fires_once(*old(report), *final(report), inv.profile == Profile::PeppolBis3 && address_blank(inv.seller.electronic_address)),
{
    if inv.profile == Profile::PeppolBis3 && address_is_blank(&inv.seller.electronic_address) {
        fatal_at(report, "PEPPOL-EN16931-R020", Path::term(BtId(34)), "Seller electronic address MUST be provided");
    } else {
        proof {
            lemma_emitted_none(*report, "PEPPOL-EN16931-R020"@);
        }
    }
}

/// When [`r005`] appends a finding: exactly when this holds, under [`r005_bound`].
pub open spec fn r005_fires(inv: Invoice) -> bool {
    inv.profile == Profile::PeppolBis3 && (inv.tax_currency matches Some(c)
        && eq_ic(c@, inv.currency@))
}

/// Where [`r005`] states when it appends a finding.
pub open spec fn r005_bound(inv: Invoice) -> bool {
    true
}

/// R005: on Peppol an accounting currency differs from the invoice currency.
pub fn r005(inv: &Invoice, report: &mut Report)
    ensures
        emitted(*old(report), *final(report), "PEPPOL-EN16931-R005"@),
        fires_once(*old(report), *final(report), inv.profile == Profile::PeppolBis3 && (inv.tax_currency matches Some(c)
            && eq_ic(c@, inv.currency@))),
{
    if inv.profile == Profile::PeppolBis3 {
        match &inv.tax_currency {
            Some(c) => {
                if str_eq_ic(c.as_str(), inv.currency.as_str()) {
                    fatal_at(
                        report,
                        "PEPPOL-EN16931-R005",
                        Path::term(BtId(6)),
                        "VAT accounting currency code MUST be different from invoice currency code when provided",
                    );
                    return;
                }
            },
            None => {},
        }
    }
    proof {
        lemma_emitted_none(*report, "PEPPOL-EN16931-R005"@);
    }
}

/// When [`r055`] appends a finding: exactly when this holds, under [`r055_bound`].
pub open spec fn r055_fires(inv: Invoice) -> bool {
    inv.profile == Profile::PeppolBis3 && (inv.totals matches Some(t)
        && t.tax_total_accounting matches Some(a) && t.tax_total matches Some(d) && d.cents() != 0 && a.cents()
        != 0 && ((d.dec().m() < 0) != (a.dec().m() < 0)))
}

/// Where [`r055`] states when it appends a finding.
pub open spec fn r055_bound(inv: Invoice) -> bool {
    true
}

/// R055: on Peppol the tax totals in the two currencies have the same sign
/// (a zero on either side is accepted).
pub fn r055(inv: &Invoice, report: &mut Report)
    ensures
        emitted(*old(report), *final(report), "PEPPOL-EN16931-R055"@),
        fires_once(*old(report), *final(report), inv.profile == Profile::PeppolBis3 && (inv.totals matches Some(t)
            && t.tax_total_accounting matches Some(a) && t.tax_total matches Some(d) && d.cents() != 0 && a.cents()
            != 0 && ((d.dec().m() < 0) != (a.dec().m() < 0)))),
{
    if inv.profile == Profile::PeppolBis3 {
        match &inv.totals {
            Some(t) => match (t.tax_total_accounting, t.tax_total) {
                (Some(a), Some(d)) => {
                    if !d.is_zero() && !a.is_zero() && d.raw().is_sign_negative() != a.raw().is_sign_negative() {
                        fatal_at(
                            report,
                            "PEPPOL-EN16931-R055",
                            Path::term(BtId(111)),
                            "Invoice total VAT amount and Invoice total VAT amount in accounting currency MUST have the same operational sign",
                        );
                        return;
                    }
                },
                _ => {},
            },
            None => {},
        }
    }
    proof {
        lemma_emitted_none(*report, "PEPPOL-EN16931-R055"@);
    }
}

/// When [`r061`] appends a finding: exactly when this holds, under [`r061_bound`].
pub open spec fn r061_fires(inv: Invoice) -> bool {
    inv.profile == Profile::PeppolBis3 && (inv.payment matches Some(p) && (
    (p.means_code matches Some(c) && c@ == "49"@) || p.means matches Some(PaymentMeans::DirectDebit(_)))
        && !(p.means matches Some(PaymentMeans::DirectDebit(d)) && !opt_text_blank(d.mandate)))
}

/// Where [`r061`] states when it appends a finding.
pub open spec fn r061_bound(inv: Invoice) -> bool {
    true
}

/// R061: on Peppol direct debit (code 49 or a direct debit) carries a mandate reference.
pub fn r061(inv: &Invoice, report: &mut Report)
    ensures
        emitted(*old(report), *final(report), "PEPPOL-EN16931-R061"@),
        fires_once(*old(report), *final(report), inv.profile == Profile::PeppolBis3 && (inv.payment matches Some(p) && (
        (p.means_code matches Some(c) && c@ == "49"@) || p.means matches Some(PaymentMeans::DirectDebit(_)))
            && !(p.means matches Some(PaymentMeans::DirectDebit(d)) && !opt_text_blank(d.mandate)))),
{
    if inv.profile == Profile::PeppolBis3 {
        match &inv.payment {
            Some(p) => {
                let code_49 = match &p.means_code {
                    Some(c) => str_eq(c.as_str(), "49"),
                    None => false,
                };
                let (is_dd, mandate_ok) = match &p.means {
                    Some(PaymentMeans::DirectDebit(d)) => (true, !text_blank(&d.mandate)),
                    _ => (false, false),
                };
                if (code_49 || is_dd) && !mandate_ok {
                    fatal_at(report, "PEPPOL-EN16931-R061", Path::term(BtId(89)), "Mandate reference MUST be provided for direct debit");
                    return;
                }
            },
            None => {},
        }
    }
    proof {
        lemma_emitted_none(*report, "PEPPOL-EN16931-R061"@);
    }
}

/// Invoice type codes of Peppol billing profile 01.
pub open spec fn p0100_allowed(c: Seq<char>) -> bool {
    c == "71"@ || c == "80"@ || c == "82"@ || c == "84"@ || c == "102"@ || c == "218"@ || c == "219"@ || c == "326"@
        || c == "331"@ || c == "380"@ || c == "382"@ || c == "383"@ || c == "384"@ || c == "386"@ || c == "388"@ || c
        == "393"@ || c == "395"@ || c == "553"@ || c == "575"@ || c == "623"@ || c == "780"@ || c == "817"@ || c
        == "870"@ || c == "875"@ || c == "876"@ || c == "877"@
}

fn p0100_allowed_exec(c: &str) -> (r: bool)
    ensures
        r == p0100_allowed(c@),
{
    str_eq(c, "71") || str_eq(c, "80") || str_eq(c, "82") || str_eq(c, "84") || str_eq(c, "102") || str_eq(c, "218")
        || str_eq(c, "219") || str_eq(c, "326") || str_eq(c, "331") || str_eq(c, "380") || str_eq(c, "382") || str_eq(
        c,
        "383",
    ) || str_eq(c, "384") || str_eq(c, "386") || str_eq(c, "388") || str_eq(c, "393") || str_eq(c, "395") || str_eq(
        c,
        "553",
    ) || str_eq(c, "575") || str_eq(c, "623") || str_eq(c, "780") || str_eq(c, "817") || str_eq(c, "870") || str_eq(
        c,
        "875",
    ) || str_eq(c, "876") || str_eq(c, "877")
}

/// When [`p0100`] appends a finding: exactly when this holds, under [`p0100_bound`].
pub open spec fn p0100_fires(inv: Invoice) -> bool {
    inv.profile == Profile::PeppolBis3 && inv.kind == DocumentKind::Invoice && (
    inv.type_code matches Some(c) && !p0100_allowed(c@))
}

/// Where [`p0100`] states when it appends a finding.
pub open spec fn p0100_bound(inv: Invoice) -> bool {
    true
}

/// P0100: on Peppol an invoice's type code is one of profile 01's.
pub fn p0100(inv: &Invoice, report: &mut Report)
    ensures
        emitted(*old(report), *final(report), "PEPPOL-EN16931-P0100"@),
        fires_once(*old(report), *final(report), inv.profile == Profile::PeppolBis3 && inv.kind == DocumentKind::Invoice && (
        inv.type_code matches Some(c) && !p0100_allowed(c@))),
{
    if inv.profile == Profile::PeppolBis3 && inv.kind == DocumentKind::Invoice {
        match &inv.type_code {
            Some(c) => {
                if !p0100_allowed_exec(c.as_str()) {
                    fatal_msg(
                        report,
                        "PEPPOL-EN16931-P0100",
                        Path::term(BtId(3)),
                        concat3("Invoice type code ", c.as_str(), " is not allowed for Peppol billing profile 01"),
                    );
                    return;
                }
            },
            None => {},
        }
    }
    proof {
        lemma_emitted_none(*report, "PEPPOL-EN16931-P0100"@);
    }
}

/// When [`vatex_pair`] appends a finding: exactly when this holds, under [`vatex_pair_bound`].
pub open spec fn vatex_pair_fires(inv: Invoice, vatex: &str, cat: &str, id: &'static str) -> bool {
    inv.profile == Profile::PeppolBis3 && exists|k: int|
        #![trigger inv.tax_breakdown@[k]] 0 <= k < inv.tax_breakdown@.len() && (inv.tax_breakdown@[k].exemption_code matches Some(
        c,
    ) && eq_ic(c@, vatex@) && !eq_ic(inv.tax_breakdown@[k].category@, cat@))
}

/// Where [`vatex_pair`] states when it appends a finding.
pub open spec fn vatex_pair_bound(inv: Invoice, vatex: &str, cat: &str, id: &'static str) -> bool {
    true
}

/// P0104–P0111: on Peppol a row whose exemption code is `vatex` has category `cat`.
pub fn vatex_pair(inv: &Invoice, report: &mut Report, vatex: &str, cat: &str, id: &'static str)
    ensures
        emitted(*old(report), *final(report), id@),
        fires_some(*old(report), *final(report), inv.profile == Profile::PeppolBis3 && exists|k: int|
            #![trigger inv.tax_breakdown@[k]] 0 <= k < inv.tax_breakdown@.len() && (inv.tax_breakdown@[k].exemption_code matches Some(
            c,
        ) && eq_ic(c@, vatex@) && !eq_ic(inv.tax_breakdown@[k].category@, cat@))),
{
    let ghost start = *report;
    proof {
        lemma_emitted_none(start, id@);
    }
    if inv.profile != Profile::PeppolBis3 {
        return;
    }
    let mut i: usize = 0;
    while i < inv.tax_breakdown.len()
        invariant
            i <= inv.tax_breakdown.len(),
            inv.profile == Profile::PeppolBis3,
            emitted(start, *report, id@),
            added(start, *report) > 0 <==> exists|k: int| #![trigger inv.tax_breakdown@[k]] 0 <= k < i && (
            inv.tax_breakdown@[k].exemption_code matches Some(c) && eq_ic(c@, vatex@) && !eq_ic(
                inv.tax_breakdown@[k].category@,
                cat@,
            )),
        decreases inv.tax_breakdown.len() - i,
    {
        let row = &inv.tax_breakdown[i];
        match &row.exemption_code {
            Some(c) => {
                if str_eq_ic(c.as_str(), vatex) && !str_eq_ic(row.category.as_str(), cat) {
                    let ghost before = *report;
                    let mut m = concat3("Tax Category ", cat, " MUST be used when exemption reason code is ");
                    m.append(vatex);
                    fatal_msg(report, id, Path::at_term(Group::TaxBreakdown, i, BtId(121)), m);
                    proof {
                        lemma_emitted_trans(start, before, *report, id@);
                    }
                }
            },
            None => {},
        }
        i = i + 1;
    }
}

/// When [`r003`] appends a finding: exactly when this holds, under [`r003_bound`].
pub open spec fn r003_fires(inv: Invoice) -> bool {
    inv.profile == Profile::PeppolBis3 && !(inv.buyer_reference matches Some(
        r,
    ) && !blank(r.0@)) && !(inv.purchase_order matches Some(o) && !blank(o.0@))
}

/// Where [`r003`] states when it appends a finding.
pub open spec fn r003_bound(inv: Invoice) -> bool {
    true
}

/// R003: on Peppol a buyer reference or an order reference is given.
pub fn r003(inv: &Invoice, report: &mut Report)
    ensures
        emitted(*old(report), *final(report), "PEPPOL-EN16931-R003"@),
        fires_once(*old(report), *final(report), inv.profile == Profile::PeppolBis3 && !(inv.buyer_reference matches Some(
            r,
        ) && !blank(r.0@)) && !(inv.purchase_order matches Some(o) && !blank(o.0@))),
{
    let has_buyer_ref = match &inv.buyer_reference {
        Some(r) => !is_blank(r.as_str()),
        None => false,
    };
    let has_order = match &inv.purchase_order {
        Some(o) => !is_blank(o.as_str()),
        None => false,
    };
    if inv.profile == Profile::PeppolBis3 && !has_buyer_ref && !has_order {
        fatal_at(
            report,
            "PEPPOL-EN16931-R003",
            Path::term(BtId(10)),
            "Buyer reference (BT-10) or order reference (BT-13) shall be present",
        );
    } else {
        proof {
            lemma_emitted_none(*report, "PEPPOL-EN16931-R003"@);
        }
    }
}

/// When [`r121`] appends a finding: exactly when this holds, under [`r121_bound`].
pub open spec fn r121_fires(inv: Invoice) -> bool {
    inv.profile == Profile::PeppolBis3 && exists|k: int|
        #![trigger inv.lines@[k]] 0 <= k < inv.lines@.len() && (inv.lines@[k].price matches Some(p) && p.base_qty matches Some(
        q,
    ) && q.dec().m() <= 0)
}

/// Where [`r121`] states when it appends a finding.
pub open spec fn r121_bound(inv: Invoice) -> bool {
    true
}

/// R121: on Peppol a price base quantity is greater than zero.
pub fn r121(inv: &Invoice, report: &mut Report)
    ensures
        emitted(*old(report), *final(report), "PEPPOL-EN16931-R121"@),
        fires_some(*old(report), *final(report), inv.profile == Profile::PeppolBis3 && exists|k: int|
            #![trigger inv.lines@[k]] 0 <= k < inv.lines@.len() && (inv.lines@[k].price matches Some(p) && p.base_qty matches Some(
            q,
        ) && q.dec().m() <= 0)),
{
    let ghost start = *report;
    proof {
        lemma_emitted_none(start, "PEPPOL-EN16931-R121"@);
    }
    if inv.profile != Profile::PeppolBis3 {
        return;
    }
    let mut i: usize = 0;
    while i < inv.lines.len()
        invariant
            i <= inv.lines.len(),
            inv.profile == Profile::PeppolBis3,
            emitted(start, *report, "PEPPOL-EN16931-R121"@),
            added(start, *report) > 0 <==> exists|k: int| #![trigger inv.lines@[k]] 0 <= k < i && (inv.lines@[k].price matches Some(
                p,
            ) && p.base_qty matches Some(q) && q.dec().m() <= 0),
        decreases inv.lines.len() - i,
    {
        let bad = match &inv.lines[i].price {
            Some(p) => match p.base_qty {
                Some(q) => q.raw().is_sign_negative() || q.raw().is_zero(),
                None => false,
            },
            None => false,
        };
        if bad {
            let ghost before = *report;
            fatal_at(report, "PEPPOL-EN16931-R121", Path::at_term(Group::Line, i, BtId(149)), "base quantity shall be greater than zero");
            proof {
                lemma_emitted_trans(start, before, *report, "PEPPOL-EN16931-R121"@);
            }
        }
        i = i + 1;
    }
}

/// A difference is beyond two cents: 0.02 < |d|.
pub open spec fn beyond_two_cents(d: Dec) -> bool {
    2 * pow10(d.s() as nat) < abs_int(d.m()) * pow10(2)
}

fn exceeds_two_cents(d: Dec) -> (r: bool)
    ensures
        r == beyond_two_cents(d),
{
    let two = Dec::new(2, 2);
    two.value_lt(&d.abs())
}

/// The expected amount with the line charges added, one by one; a sum that
/// does not come out leaves the amount as it was.
pub open spec fn plus_charges(e: Dec, cs: Seq<LineAllowanceCharge>) -> Dec
    decreases cs.len(),
{
    if cs.len() == 0 {
        e
    } else {
        let prev = plus_charges(e, cs.drop_last());
        match dec_sum(prev, cs.last().amount.dec()) {
            Some(v) => v,
            None => prev,
        }
    }
}

/// The expected amount with the line allowances taken off, one by one; a
/// difference that does not come out leaves the amount as it was.
pub open spec fn less_allowances(e: Dec, als: Seq<LineAllowanceCharge>) -> Dec
    decreases als.len(),
{
    if als.len() == 0 {
        e
    } else {
        let prev = less_allowances(e, als.drop_last());
        match dec_difference(prev, als.last().amount.dec()) {
            Some(v) => v,
            None => prev,
        }
    }
}

/// The base quantity R120 divides by: one where it is absent or zero.
pub open spec fn r120_base(p: Price) -> Dec {
    match p.base_qty {
        Some(b) => if b.dec().m() == 0 { unit_dec() } else { b.dec() },
        None => unit_dec(),
    }
}

/// R120 fires on a line with a quantity and a price whose quantity × net
/// price ÷ base quantity comes out, and which, plus the line charges and
/// less the line allowances, is more than 0.02 from the line net amount (or
/// whose difference from it does not come out).
pub open spec fn r120_off(line: Line) -> bool {
    match (line.quantity, line.price) {
        (Some(q), Some(p)) => match dec_product(q.dec(), p.net.dec()) {
            Some(v) => match dec_quotient(v, r120_base(p)) {
                Some(e0) => match dec_difference(
                    less_allowances(plus_charges(e0, line.charges@), line.allowances@),
                    line.net.dec(),
                ) {
                    Some(d) => beyond_two_cents(d),
                    None => true,
                },
                None => false,
            },
            None => false,
        },
        _ => false,
    }
}

/// How many of the first `n` lines R120 fires on.
pub open spec fn r120_count(lines: Seq<Line>, n: int) -> int
    decreases n,
{
    if n <= 0 {
        0
    } else {
        r120_count(lines, n - 1) + if r120_off(lines[n - 1]) { 1int } else { 0 }
    }
}

/// When [`r120`] appends a finding: exactly when this holds, under [`r120_bound`].
pub open spec fn r120_fires(inv: Invoice) -> bool {
    inv.profile == Profile::PeppolBis3 && exists|k: int|
        #![trigger inv.lines@[k]] 0 <= k < inv.lines@.len() && r120_off(inv.lines@[k])
}

/// Where [`r120`] states when it appends a finding.
pub open spec fn r120_bound(inv: Invoice) -> bool {
    true
}

/// R120: on Peppol a line net amount is quantity × net price ÷ base quantity,
/// plus line charges, less line allowances, within ±0.02 inclusive. One
/// finding per line it fires on, on that line's BT-131.
pub fn r120(inv: &Invoice, report: &mut Report)
    ensures
        emitted(*old(report), *final(report), "PEPPOL-EN16931-R120"@),
        inv.profile != Profile::PeppolBis3 ==> added(*old(report), *final(report)) == 0,
        inv.profile == Profile::PeppolBis3 ==> added(*old(report), *final(report)) == r120_count(inv.lines@, inv.lines@.len() as int),
        fires_some(*old(report), *final(report), inv.profile == Profile::PeppolBis3 && exists|k: int|
            #![trigger inv.lines@[k]] 0 <= k < inv.lines@.len() && r120_off(inv.lines@[k])),
        forall|j: int| old(report).findings@.len() <= j < final(report).findings@.len() ==> exists|k: int|
            0 <= k < inv.lines@.len() && r120_off(#[trigger] inv.lines@[k]) && (#[trigger] final(report).findings@[j]).path
                == (Path { group: Group::Line, index: Some(k as usize), term: Some(BtId(131)) }),
        added(*old(report), *final(report)) <= inv.lines@.len(),
{
    let ghost start = *report;
    proof {
        lemma_emitted_none(start, "PEPPOL-EN16931-R120"@);
    }
    if inv.profile != Profile::PeppolBis3 {
        return;
    }
    let mut i: usize = 0;
    while i < inv.lines.len()
        invariant
            i <= inv.lines.len(),
            inv.profile == Profile::PeppolBis3,
            emitted(start, *report, "PEPPOL-EN16931-R120"@),
            added(start, *report) == r120_count(inv.lines@, i as int),
            0 <= r120_count(inv.lines@, i as int) <= i,
            r120_count(inv.lines@, i as int) > 0 <==> exists|k: int| #![trigger inv.lines@[k]] 0 <= k < i && r120_off(inv.lines@[k]),
            forall|j: int| start.findings@.len() <= j < report.findings@.len() ==> exists|k: int|
                0 <= k < i && r120_off(#[trigger] inv.lines@[k]) && (#[trigger] report.findings@[j]).path
                    == (Path { group: Group::Line, index: Some(k as usize), term: Some(BtId(131)) }),
        decreases inv.lines.len() - i,
    {
        let line = &inv.lines[i];
        let ghost off = r120_off(inv.lines@[i as int]);
        let ghost r0 = *report;
        match (line.quantity, &line.price) {
            (Some(qty), Some(price)) => {
                let base = match price.base_qty {
                    Some(q) => if q.raw().is_zero() { Dec::one() } else { q.raw() },
                    None => Dec::one(),
                };
                let product = qty.raw().checked_mul(&price.net.raw());
                let quotient = match product {
                    Some(v) => v.checked_div(&base),
                    None => None,
                };
                match quotient {
                    Some(e0) => {
                        let mut expected = e0;
                        let mut c: usize = 0;
                        while c < line.charges.len()
                            invariant
                                c <= line.charges.len(),
                                expected == plus_charges(e0, line.charges@.take(c as int)),
                            decreases line.charges.len() - c,
                        {
                            proof {
                                assert(line.charges@.take(c + 1).drop_last() =~= line.charges@.take(c as int));
                            }
                            match expected.checked_add(&line.charges[c].amount.raw()) {
                                Some(v) => {
                                    expected = v;
                                },
                                None => {},
                            }
                            c = c + 1;
                        }
                        assert(line.charges@.take(c as int) =~= line.charges@);
                        let mut a: usize = 0;
                        while a < line.allowances.len()
                            invariant
                                a <= line.allowances.len(),
                                expected == less_allowances(plus_charges(e0, line.charges@), line.allowances@.take(a as int)),
                            decreases line.allowances.len() - a,
                        {
                            proof {
                                assert(line.allowances@.take(a + 1).drop_last() =~= line.allowances@.take(a as int));
                            }
                            match expected.checked_sub(&line.allowances[a].amount.raw()) {
                                Some(v) => {
                                    expected = v;
                                },
                                None => {},
                            }
                            a = a + 1;
                        }
                        assert(line.allowances@.take(a as int) =~= line.allowances@);
                        let far = match expected.checked_sub(&line.net.raw()) {
                            Some(d) => exceeds_two_cents(d),
                            None => true,
                        };
                        if far {
                            let ghost before = *report;
                            let m = concat3("BT-131 ", line.net.to_string().as_str(), " differs from qty×price/base beyond the ±0.02 slack");
                            fatal_msg(report, "PEPPOL-EN16931-R120", Path::at_term(Group::Line, i, BtId(131)), m);
                            proof {
                                lemma_emitted_trans(start, before, *report, "PEPPOL-EN16931-R120"@);
                            }
                        }
                        assert(far == off);
                    },
                    None => {
                        assert(!off);
                    },
                }
            },
            _ => {
                assert(!off);
            },
        }
        proof {
            assert(r120_count(inv.lines@, i + 1) == r120_count(inv.lines@, i as int) + if off { 1int } else { 0 });
            assert forall|j: int| start.findings@.len() <= j < report.findings@.len() implies exists|k: int|
                0 <= k < i + 1 && r120_off(#[trigger] inv.lines@[k]) && (#[trigger] report.findings@[j]).path
                    == (Path { group: Group::Line, index: Some(k as usize), term: Some(BtId(131)) }) by {
                if j < r0.findings@.len() {
                    assert(report.findings@[j] == r0.findings@[j]);
                } else {
                    assert(inv.lines@[i as int] == inv.lines@[i as int]);
                }
            }
        }
        i = i + 1;
    }
}

/// Mantissa of the price discount, zero where there is none.
pub open spec fn discount_m(p: Price) -> int {
    match p.discount {
        Some(d) => d.dec().m(),
        None => 0,
    }
}

/// Scale of the price discount, zero where there is none.
pub open spec fn discount_s(p: Price) -> nat {
    match p.discount {
        Some(d) => d.dec().s(),
        None => 0,
    }
}

/// The common scale of the gross price and the discount.
pub open spec fn price_scale(g: Dec, p: Price) -> nat {
    if g.s() >= discount_s(p) { g.s() } else { discount_s(p) }
}

/// Gross less discount, in units of `10^-price_scale`.
pub open spec fn gross_less_discount(g: Dec, p: Price) -> int {
    g.m() * pow10((price_scale(g, p) - g.s()) as nat) - discount_m(p) * pow10((price_scale(g, p) - discount_s(p)) as nat)
}

/// The net price is not exactly the gross price less the discount.
pub open spec fn gross_off(g: Dec, p: Price) -> bool {
    gross_less_discount(g, p) * pow10(p.net.dec().s()) != p.net.dec().m() * pow10(price_scale(g, p))
}

/// Gross, discount and their difference are representable at the common scale.
pub open spec fn gross_fits(g: Dec, p: Price) -> bool {
    &&& fits96(g.m() * pow10((price_scale(g, p) - g.s()) as nat))
    &&& fits96(discount_m(p) * pow10((price_scale(g, p) - discount_s(p)) as nat))
    &&& fits96(gross_less_discount(g, p))
}

/// The line's net price is not exactly its gross price less its discount.
pub open spec fn r046_fails(l: Line) -> bool {
    l.price matches Some(p) && p.gross matches Some(g) && gross_off(g.dec(), p)
}

/// Where the line states a gross price, the subtraction is representable.
pub open spec fn r046_fits(l: Line) -> bool {
    l.price matches Some(p) && p.gross matches Some(g) ==> gross_fits(g.dec(), p)
}

/// Whether a stated gross price, less the discount, differs from the net
/// price (exact where [`gross_fits`] holds; `false` where the difference
/// overflows).
fn price_off(price: &Price, gross: UnitPriceAmount) -> (r: bool)
    ensures
        gross_fits(gross.dec(), *price) ==> r == gross_off(gross.dec(), *price),
{
    let discount = match price.discount {
        Some(d) => d.raw(),
        None => Dec::zero(),
    };
    let g = gross.raw();
    assert(discount.m() == discount_m(*price) && discount.s() == discount_s(*price));
    match g.checked_sub(&discount) {
        Some(expected) => {
            let net = price.net.raw();
            proof {
                if sub_fits(g, discount) {
                    lemma_same_value_at(expected, max_scale(g, discount), gross_less_discount(g, *price), net);
                }
            }
            !expected.value_eq(&net)
        },
        None => false,
    }
}

/// When [`r046`] appends a finding: exactly when this holds, under [`r046_bound`].
pub open spec fn r046_fires(inv: Invoice) -> bool {
    inv.profile == Profile::PeppolBis3 && exists|i: int|
            #![trigger inv.lines@[i]]
            0 <= i < inv.lines@.len() && r046_fails(inv.lines@[i])
}

/// Where [`r046`] states when it appends a finding.
pub open spec fn r046_bound(inv: Invoice) -> bool {
    (forall|i: int| 0 <= i < inv.lines@.len() ==> r046_fits(#[trigger] inv.lines@[i]))
}

/// R046: on Peppol a net price with a gross price is gross less discount,
/// exactly. At most one finding per line.
pub fn r046(inv: &Invoice, report: &mut Report)
    ensures
        emitted(*old(report), *final(report), "PEPPOL-EN16931-R046"@),
        inv.profile != Profile::PeppolBis3 ==> added(*old(report), *final(report)) == 0,
        added(*old(report), *final(report)) <= inv.lines@.len(),
        (forall|i: int| 0 <= i < inv.lines@.len() ==> r046_fits(#[trigger] inv.lines@[i])) ==> fires_some(
            *old(report),
            *final(report),
            inv.profile == Profile::PeppolBis3 && exists|i: int|
                #![trigger inv.lines@[i]]
                0 <= i < inv.lines@.len() && r046_fails(inv.lines@[i]),
        ),
{
    let ghost start = *report;
    proof {
        lemma_emitted_none(start, "PEPPOL-EN16931-R046"@);
    }
    if inv.profile != Profile::PeppolBis3 {
        return;
    }
    let ghost all_fit = forall|i: int| 0 <= i < inv.lines@.len() ==> r046_fits(#[trigger] inv.lines@[i]);
    let mut i: usize = 0;
    while i < inv.lines.len()
        invariant
            i <= inv.lines.len(),
            emitted(start, *report, "PEPPOL-EN16931-R046"@),
            added(start, *report) <= i,
            all_fit == forall|k: int| 0 <= k < inv.lines@.len() ==> r046_fits(#[trigger] inv.lines@[k]),
            all_fit ==> (added(start, *report) > 0 <==> exists|k: int|
                #![trigger inv.lines@[k]]
                0 <= k < i && r046_fails(inv.lines@[k])),
        decreases inv.lines.len() - i,
    {
        proof {
            if all_fit {
                assert(r046_fits(inv.lines@[i as int]));
            }
        }
        match &inv.lines[i].price {
            Some(price) => match price.gross {
                Some(gross) => {
                    if price_off(price, gross) {
                        let ghost before = *report;
                        fatal_at(
                            report,
                            "PEPPOL-EN16931-R046",
                            Path::at_term(Group::Line, i, BtId(146)),
                            "net price = gross − discount, exact (not R120 slack)",
                        );
                        proof {
                            lemma_emitted_trans(start, before, *report, "PEPPOL-EN16931-R046"@);
                        }
                    }
                },
                None => {},
            },
            None => {},
        }
        i = i + 1;
    }
}

/// R040 fires on an allowance or charge with a base and a percentage whose
/// base × percentage ÷ 100 comes out and is more than 0.02 from its amount
/// (or whose difference from it does not come out).
pub open spec fn r040_off(a: crate::invoice::AllowanceCharge) -> bool {
    match (a.base, a.percent) {
        (Some(base), Some(pct)) => match dec_product(base.dec(), pct.dec()) {
            Some(v) => match dec_quotient(v, hundred_dec()) {
                Some(e) => match dec_difference(e, a.amount.dec()) {
                    Some(d) => beyond_two_cents(d),
                    None => true,
                },
                None => false,
            },
            None => false,
        },
        _ => false,
    }
}

/// How many of the first `n` allowances or charges R040 fires on.
pub open spec fn r040_count(acs: Seq<crate::invoice::AllowanceCharge>, n: int) -> int
    decreases n,
{
    if n <= 0 {
        0
    } else {
        r040_count(acs, n - 1) + if r040_off(acs[n - 1]) { 1int } else { 0 }
    }
}

/// R040: on Peppol a document allowance or charge with a base and a
/// percentage has amount base × percentage ÷ 100 within ±0.02. Allowances and
/// charges are counted in one sequence, allowances first; one finding for
/// each that is off.
pub fn r040(inv: &Invoice, report: &mut Report)
    ensures
        emitted(*old(report), *final(report), "PEPPOL-EN16931-R040"@),
        inv.profile != Profile::PeppolBis3 ==> added(*old(report), *final(report)) == 0,
        inv.profile == Profile::PeppolBis3 ==> added(*old(report), *final(report)) == r040_count(
            inv.document_allowances@,
            inv.document_allowances@.len() as int,
        ) + r040_count(inv.document_charges@, inv.document_charges@.len() as int),
        added(*old(report), *final(report)) <= inv.document_allowances@.len() + inv.document_charges@.len(),
{
    let ghost start = *report;
    proof {
        lemma_emitted_none(start, "PEPPOL-EN16931-R040"@);
    }
    if inv.profile != Profile::PeppolBis3 {
        return;
    }
    let na = inv.document_allowances.len();
    let mut i: usize = 0;
    while i < na
        invariant
            i <= na,
            na == inv.document_allowances@.len(),
            emitted(start, *report, "PEPPOL-EN16931-R040"@),
            added(start, *report) == r040_count(inv.document_allowances@, i as int),
            0 <= r040_count(inv.document_allowances@, i as int) <= i,
        decreases na - i,
    {
        let ghost before = *report;
        r040_row(&inv.document_allowances[i], i, report);
        proof {
            lemma_emitted_trans(start, before, *report, "PEPPOL-EN16931-R040"@);
        }
        i = i + 1;
    }
    let mut c: usize = 0;
    while c < inv.document_charges.len()
        invariant
            c <= inv.document_charges.len(),
            na == inv.document_allowances@.len(),
            emitted(start, *report, "PEPPOL-EN16931-R040"@),
            added(start, *report) == r040_count(inv.document_allowances@, na as int) + r040_count(inv.document_charges@, c as int),
            0 <= r040_count(inv.document_allowances@, na as int) <= na,
            0 <= r040_count(inv.document_charges@, c as int) <= c,
        decreases inv.document_charges.len() - c,
    {
        let ghost before = *report;
        let index = match na.checked_add(c) {
            Some(v) => v,
            None => usize::MAX,
        };
        r040_row(&inv.document_charges[c], index, report);
        proof {
            lemma_emitted_trans(start, before, *report, "PEPPOL-EN16931-R040"@);
        }
        c = c + 1;
    }
}

fn r040_row(a: &crate::invoice::AllowanceCharge, i: usize, report: &mut Report)
    ensures
        emitted(*old(report), *final(report), "PEPPOL-EN16931-R040"@),
        added(*old(report), *final(report)) == if r040_off(*a) { 1int } else { 0 },
{
    match (a.base, a.percent) {
        (Some(base), Some(pct)) => {
            let expected = match base.raw().checked_mul(&pct.as_percent()) {
                Some(v) => v.checked_div(&Dec::hundred()),
                None => None,
            };
            match expected {
                Some(e) => {
                    let far = match e.checked_sub(&a.amount.raw()) {
                        Some(d) => exceeds_two_cents(d),
                        None => true,
                    };
                    if far {
                        let m = concat3(
                            "allowance/charge amount ",
                            a.amount.to_string().as_str(),
                            " differs from base×percent/100 by more than 0.02",
                        );
                        fatal_msg(report, "PEPPOL-EN16931-R040", Path::at_term(Group::DocumentAllowance, i, BtId(92)), m);
                        return;
                    }
                },
                None => {},
            }
        },
        _ => {},
    }
    proof {
        lemma_emitted_none(*report, "PEPPOL-EN16931-R040"@);
    }
}

} // verus!
