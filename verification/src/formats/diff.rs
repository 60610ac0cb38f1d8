//! Semantic difference of two invoices: one line per facet that differs.
use vstd::prelude::*;
use crate::amount::InvoiceAmount;
use crate::code::Code;
use crate::date::Date;
use crate::invoice::{Invoice, Line, Party, party_country, payable_of};
use crate::kind::DocumentKind;
use crate::model_eq::{eq_opt_amount, eq_opt_code, eq_opt_contact, eq_opt_date, eq_opt_delivery, eq_opt_document_reference, eq_opt_document_totals, eq_opt_identifier, eq_opt_payee, eq_opt_payment_instructions, eq_opt_payment_means, eq_opt_period, eq_opt_postal_address, eq_opt_price, eq_opt_quantity, eq_opt_tax_representative, eq_opt_text, eq_tax_category, eq_vec_allowance_charge, eq_vec_identifier, eq_vec_invoice_note, eq_vec_item_attribute, eq_vec_line_allowance_charge, eq_vec_preceding_invoice, eq_vec_supporting_document, eq_vec_tax_breakdown, eq_vec_tax_category, same_opt_amount, same_opt_code, same_opt_contact, same_opt_delivery, same_opt_document_reference, same_opt_document_totals, same_opt_identifier, same_opt_payee, same_opt_payment_instructions, same_opt_period, same_opt_postal_address, same_opt_price, same_opt_quantity, same_opt_tax_representative, same_opt_text, same_tax_category, same_vec_allowance_charge, same_vec_identifier, same_vec_invoice_note, same_vec_item_attribute, same_vec_line_allowance_charge, same_vec_preceding_invoice, same_vec_supporting_document, same_vec_tax_breakdown, same_vec_tax_category, eq_opt_unit};
use crate::invoice::AllowanceCharge;
use crate::numeric::Quantity;
use crate::text::{owned, starts_with, str_eq, u64_text};

verus! {

/// A line of the difference: contains a `:` after the facet's name.
pub open spec fn is_line(t: Seq<char>) -> bool {
    exists|i: int| 0 <= i < t.len() && t[i] == ':'
}

fn line_differ(label: &str) -> (r: String)
    ensures
        is_line(r@),
        starts_with(r@, label@),
{
    let mut s = owned(label);
    let k = label.unicode_len();
    s.append(": differ");
    proof {
        reveal_strlit(": differ");
        assert(r_at(s@, k as int));
        assert(s@.subrange(0, label@.len() as int) =~= label@);
    }
    s
}

spec fn r_at(t: Seq<char>, k: int) -> bool {
    0 <= k < t.len() && t[k] == ':'
}

fn line_change(label: &str, left: &str, right: &str) -> (r: String)
    ensures
        is_line(r@),
        starts_with(r@, label@),
{
    let mut s = owned(label);
    let k = label.unicode_len();
    s.append(": ");
    proof {
        reveal_strlit(": ");
        assert(s@[k as int] == ':');
    }
    let ghost before = s@;
    s.append(left);
    s.append(" → ");
    s.append(right);
    assert(s@[k as int] == before[k as int]);
    assert(s@.subrange(0, label@.len() as int) =~= label@);
    s
}

fn push(lines: &mut Vec<String>, line: String)
    requires
        is_line(line@),
        old(lines)@.len() > 0 ==> is_line(old(lines)@[0]@),
    ensures
        final(lines)@ == old(lines)@.push(line),
        is_line(final(lines)@[0]@),
{
    lines.push(line);
}

/// `b` keeps the lines of `a` in front.
pub open spec fn keeps_lines(a: Seq<String>, b: Seq<String>) -> bool {
    a.len() <= b.len() && forall|i: int| 0 <= i < a.len() ==> #[trigger] b[i] == a[i]
}

/// The lines from `from` on start with `label`.
pub open spec fn labelled(s: Seq<String>, from: int, label: Seq<char>) -> bool {
    forall|i: int| from <= i < s.len() ==> starts_with(#[trigger] s[i]@, label)
}

/// The first line, if any, is a line of the difference.
pub open spec fn first_is_line(s: Seq<String>) -> bool {
    s.len() > 0 ==> is_line(s[0]@)
}

/// Every line is a line of the difference.
pub open spec fn all_lines(s: Seq<String>) -> bool {
    forall|i: int| 0 <= i < s.len() ==> is_line(#[trigger] s[i]@)
}

fn opt_amount_text(a: Option<InvoiceAmount>) -> (r: String) {
    match a {
        Some(x) => x.to_string(),
        None => owned("absent"),
    }
}

fn opt_date_text(d: Option<Date>) -> (r: String) {
    match d {
        Some(x) => {
            let mut s = owned("Some(Date { year: ");
            let y = u64_text(x.year() as u64);
            s.append(y.as_str());
            s.append(", month: ");
            let m = u64_text(x.month() as u64);
            s.append(m.as_str());
            s.append(", day: ");
            let dd = u64_text(x.day() as u64);
            s.append(dd.as_str());
            s.append(" })");
            s
        },
        None => owned("None"),
    }
}

fn opt_code_text(c: &Option<Code>) -> (r: String) {
    match c {
        Some(x) => {
            let mut s = owned("Some(Code(\"");
            s.append(x.as_str());
            s.append("\"))");
            s
        },
        None => owned("None"),
    }
}

fn kind_text(k: DocumentKind) -> (r: &'static str) {
    match k {
        DocumentKind::Invoice => "Invoice",
        DocumentKind::CreditNote => "CreditNote",
    }
}

fn opt_quantity_text(q: Option<Quantity>) -> (r: String) {
    match q {
        Some(x) => {
            let mut s = owned("Some(");
            let t = x.to_string();
            s.append(t.as_str());
            s.append(")");
            s
        },
        None => owned("None"),
    }
}

/// The facets of a party that the difference compares.
pub open spec fn party_same(a: Party, b: Party) -> bool {
    &&& a.name@ == b.name@
    &&& party_country(a) == party_country(b)
    &&& same_opt_identifier(a.electronic_address, b.electronic_address)
    &&& same_opt_identifier(a.vat_identifier, b.vat_identifier)
    &&& same_opt_identifier(a.tax_registration, b.tax_registration)
    &&& same_opt_identifier(a.legal_registration, b.legal_registration)
    &&& same_vec_identifier(a.identifiers@, b.identifiers@)
    &&& same_opt_contact(a.contact, b.contact)
    &&& same_opt_postal_address(a.address, b.address)
}

/// Append the line that the facet `label` + `suffix` differs.
fn push_differ_under(lines: &mut Vec<String>, label: &str, suffix: &str)
    requires
        first_is_line(old(lines)@),
    ensures
        first_is_line(final(lines)@),
        final(lines)@.len() == old(lines)@.len() + 1,
        keeps_lines(old(lines)@, final(lines)@),
        starts_with(final(lines)@.last()@, label@),
{
    let mut l = owned(label);
    l.append(suffix);
    let line = line_differ(l.as_str());
    proof {
        assert(line@.subrange(0, label@.len() as int) =~= l@.subrange(0, label@.len() as int));
        assert(l@.subrange(0, label@.len() as int) =~= label@);
    }
    push(lines, line);
}

/// Append the line that the facet `label` + `suffix` changed from `left` to
/// `right`.
fn push_change_under(lines: &mut Vec<String>, label: &str, suffix: &str, left: &str, right: &str)
    requires
        first_is_line(old(lines)@),
    ensures
        first_is_line(final(lines)@),
        final(lines)@.len() == old(lines)@.len() + 1,
        keeps_lines(old(lines)@, final(lines)@),
        starts_with(final(lines)@.last()@, label@),
{
    let mut l = owned(label);
    l.append(suffix);
    let line = line_change(l.as_str(), left, right);
    proof {
        assert(line@.subrange(0, label@.len() as int) =~= l@.subrange(0, label@.len() as int));
        assert(l@.subrange(0, label@.len() as int) =~= label@);
    }
    push(lines, line);
}

#[verifier::rlimit(60)]
fn diff_party(lines: &mut Vec<String>, label: &str, left: &Party, right: &Party)
    requires
        first_is_line(old(lines)@),
    ensures
        first_is_line(final(lines)@),
        keeps_lines(old(lines)@, final(lines)@),
        labelled(final(lines)@, old(lines)@.len() as int, label@),
        final(lines)@.len() >= old(lines)@.len(),
        final(lines)@.len() == old(lines)@.len() <==> party_same(*left, *right),
{
    if !str_eq(left.name.as_str(), right.name.as_str()) {
        push_change_under(lines, label, ".name", left.name.as_str(), right.name.as_str());
    }
    let lc = left.country();
    let rc = right.country();
    if !str_eq(lc, rc) {
        push_change_under(lines, label, ".country", lc, rc);
    }
    if !eq_opt_identifier(&left.electronic_address, &right.electronic_address) {
        push_differ_under(lines, label, ".endpoint");
    }
    if !eq_opt_identifier(&left.vat_identifier, &right.vat_identifier) {
        push_differ_under(lines, label, ".vat");
    }
    if !eq_opt_identifier(&left.tax_registration, &right.tax_registration) {
        push_differ_under(lines, label, ".tax_registration");
    }
    if !eq_opt_identifier(&left.legal_registration, &right.legal_registration) {
        push_differ_under(lines, label, ".legal_registration");
    }
    if !eq_vec_identifier(&left.identifiers, &right.identifiers) {
        push_differ_under(lines, label, ".identifiers");
    }
    if !eq_opt_contact(&left.contact, &right.contact) {
        push_differ_under(lines, label, ".contact");
    }
    if !eq_opt_postal_address(&left.address, &right.address) {
        push_differ_under(lines, label, ".address");
    }
}


fn indexed(base: &str, i: usize, field: &str) -> (r: String) {
    let mut s = owned(base);
    s.append("[");
    let t = u64_text(i as u64);
    s.append(t.as_str());
    s.append("]");
    s.append(field);
    s
}

fn count_change(label: &str, a: usize, b: usize) -> (r: String)
    ensures
        is_line(r@),
{
    let ta = u64_text(a as u64);
    let tb = u64_text(b as u64);
    line_change(label, ta.as_str(), tb.as_str())
}

/// Header facets: number, amount due, currency, profile, dates, type code, kind.
pub open spec fn header_same(a: Invoice, b: Invoice) -> bool {
    &&& a.number@ == b.number@
    &&& same_opt_amount(payable_of(a), payable_of(b))
    &&& a.currency@ == b.currency@
    &&& a.profile == b.profile
    &&& a.issue_date == b.issue_date
    &&& a.due_date == b.due_date
    &&& same_opt_code(a.type_code, b.type_code)
    &&& a.kind == b.kind
}

fn diff_header(lines: &mut Vec<String>, left: &Invoice, right: &Invoice)
    requires
        first_is_line(old(lines)@),
    ensures
        first_is_line(final(lines)@),
        keeps_lines(old(lines)@, final(lines)@),
        final(lines)@.len() >= old(lines)@.len(),
        final(lines)@.len() == old(lines)@.len() <==> header_same(*left, *right),
{
    if !str_eq(left.number.as_str(), right.number.as_str()) {
        push(lines, line_change("number", left.number.as_str(), right.number.as_str()));
    }
    let lp = left.payable();
    let rp = right.payable();
    if !eq_opt_amount(lp, rp) {
        let a = opt_amount_text(lp);
        let b = opt_amount_text(rp);
        push(lines, line_change("payable", a.as_str(), b.as_str()));
    }
    if !str_eq(left.currency.as_str(), right.currency.as_str()) {
        push(lines, line_change("currency", left.currency.as_str(), right.currency.as_str()));
    }
    if left.profile != right.profile {
        push(lines, line_change("profile", left.profile.slug(), right.profile.slug()));
    }
    if !eq_opt_date(left.issue_date, right.issue_date) {
        let a = opt_date_text(left.issue_date);
        let b = opt_date_text(right.issue_date);
        push(lines, line_change("issue_date", a.as_str(), b.as_str()));
    }
    if !eq_opt_date(left.due_date, right.due_date) {
        let a = opt_date_text(left.due_date);
        let b = opt_date_text(right.due_date);
        push(lines, line_change("due_date", a.as_str(), b.as_str()));
    }
    if !eq_opt_code(&left.type_code, &right.type_code) {
        let a = opt_code_text(&left.type_code);
        let b = opt_code_text(&right.type_code);
        push(lines, line_change("type_code", a.as_str(), b.as_str()));
    }
    if left.kind != right.kind {
        push(lines, line_change("kind", kind_text(left.kind), kind_text(right.kind)));
    }
}

/// Notes, specification and process ids, payee, tax representative.
pub open spec fn notes_same(a: Invoice, b: Invoice) -> bool {
    &&& same_vec_invoice_note(a.notes@, b.notes@)
    &&& same_opt_text(a.specification_id, b.specification_id)
    &&& same_opt_text(a.business_process, b.business_process)
    &&& same_opt_payee(a.payee, b.payee)
    &&& same_opt_tax_representative(a.tax_representative, b.tax_representative)
}

fn diff_notes(lines: &mut Vec<String>, left: &Invoice, right: &Invoice)
    requires
        first_is_line(old(lines)@),
    ensures
        first_is_line(final(lines)@),
        keeps_lines(old(lines)@, final(lines)@),
        final(lines)@.len() >= old(lines)@.len(),
        final(lines)@.len() == old(lines)@.len() <==> notes_same(*left, *right),
{
    if !eq_vec_invoice_note(&left.notes, &right.notes) {
        push(lines, count_change("notes", left.notes.len(), right.notes.len()));
        let n = if left.notes.len() < right.notes.len() { left.notes.len() } else { right.notes.len() };
        let mut i: usize = 0;
        while i < n
            invariant
                n <= left.notes.len(),
                n <= right.notes.len(),
                i <= n,
                lines@.len() > 0,
                first_is_line(lines@),
            keeps_lines(old(lines)@, lines@),
                keeps_lines(old(lines)@, lines@),
                lines@.len() >= old(lines)@.len() + 1,
            decreases n - i,
        {
            if !str_eq(left.notes[i].text.as_str(), right.notes[i].text.as_str()) {
                let l = indexed("notes", i, ".text");
                push(lines, line_differ(l.as_str()));
            }
            if !eq_opt_code(&left.notes[i].subject, &right.notes[i].subject) {
                push(lines, line_differ("notes.subject"));
            }
            i = i + 1;
        }
    }
    let before = lines.len();
    if !eq_opt_text(&left.specification_id, &right.specification_id) {
        push(lines, line_differ("specification_id"));
    }
    if !eq_opt_text(&left.business_process, &right.business_process) {
        push(lines, line_differ("business_process"));
    }
    if !eq_opt_payee(&left.payee, &right.payee) {
        push(lines, line_differ("payee"));
    }
    if !eq_opt_tax_representative(&left.tax_representative, &right.tax_representative) {
        push(lines, line_differ("tax_representative"));
    }
}

/// Delivery, references, accounting, tax point, supporting documents.
pub open spec fn references_same(a: Invoice, b: Invoice) -> bool {
    &&& same_opt_delivery(a.delivery, b.delivery)
    &&& same_opt_document_reference(a.despatch, b.despatch)
    &&& same_opt_document_reference(a.receiving_advice, b.receiving_advice)
    &&& same_opt_text(a.buyer_accounting, b.buyer_accounting)
    &&& a.tax_point_date == b.tax_point_date
    &&& same_opt_code(a.tax_point_code, b.tax_point_code)
    &&& same_vec_supporting_document(a.supporting_documents@, b.supporting_documents@)
}

#[verifier::rlimit(60)]
fn diff_references(lines: &mut Vec<String>, left: &Invoice, right: &Invoice)
    requires
        first_is_line(old(lines)@),
    ensures
        first_is_line(final(lines)@),
        keeps_lines(old(lines)@, final(lines)@),
        final(lines)@.len() >= old(lines)@.len(),
        final(lines)@.len() == old(lines)@.len() <==> references_same(*left, *right),
{
    if !eq_opt_delivery(&left.delivery, &right.delivery) {
        match (&left.delivery, &right.delivery) {
            (Some(a), Some(b)) => {
                if !eq_opt_date(a.date, b.date) {
                    push(lines, line_differ("delivery.date"));
                }
                if !eq_opt_text(&a.name, &b.name) {
                    push(lines, line_differ("delivery.name"));
                }
                if !eq_opt_identifier(&a.location_id, &b.location_id) {
                    push(lines, line_differ("delivery.location_id"));
                }
                if !eq_opt_postal_address(&a.address, &b.address) {
                    push(lines, line_differ("delivery.address"));
                }
            },
            _ => {
                push(lines, line_differ("delivery"));
            },
        }
    }
    if !eq_opt_document_reference(&left.despatch, &right.despatch) {
        push(lines, line_differ("despatch"));
    }
    if !eq_opt_document_reference(&left.receiving_advice, &right.receiving_advice) {
        push(lines, line_differ("receiving_advice"));
    }
    if !eq_opt_text(&left.buyer_accounting, &right.buyer_accounting) {
        push(lines, line_differ("buyer_accounting"));
    }
    if !eq_opt_date(left.tax_point_date, right.tax_point_date) || !eq_opt_code(&left.tax_point_code, &right.tax_point_code) {
        push(lines, line_differ("tax_point"));
    }
    if !eq_vec_supporting_document(&left.supporting_documents, &right.supporting_documents) {
        push(lines, line_differ("supporting_documents"));
    }
}

/// Allowances, charges, preceding invoices, payment.
pub open spec fn money_same(a: Invoice, b: Invoice) -> bool {
    &&& same_vec_allowance_charge(a.document_allowances@, b.document_allowances@)
    &&& same_vec_allowance_charge(a.document_charges@, b.document_charges@)
    &&& same_vec_preceding_invoice(a.preceding@, b.preceding@)
    &&& same_opt_payment_instructions(a.payment, b.payment)
}

fn amounts_differ(a: &Vec<AllowanceCharge>, b: &Vec<AllowanceCharge>) -> (r: bool)
{
    if a.len() != b.len() {
        return true;
    }
    let mut i: usize = 0;
    while i < a.len()
        invariant
            a.len() == b.len(),
            i <= a.len(),
        decreases a.len() - i,
    {
        if a[i].amount != b[i].amount {
            return true;
        }
        i = i + 1;
    }
    false
}

fn diff_money(lines: &mut Vec<String>, left: &Invoice, right: &Invoice)
    requires
        first_is_line(old(lines)@),
    ensures
        first_is_line(final(lines)@),
        keeps_lines(old(lines)@, final(lines)@),
        final(lines)@.len() >= old(lines)@.len(),
        final(lines)@.len() == old(lines)@.len() <==> money_same(*left, *right),
{
    if !eq_vec_allowance_charge(&left.document_allowances, &right.document_allowances) {
        if amounts_differ(&left.document_allowances, &right.document_allowances) {
            push(lines, line_differ("document_allowances"));
        } else {
            push(lines, line_differ("document_allowances.reason"));
        }
    }
    if !eq_vec_allowance_charge(&left.document_charges, &right.document_charges) {
        if amounts_differ(&left.document_charges, &right.document_charges) {
            push(lines, line_differ("document_charges"));
        } else {
            push(lines, line_differ("document_charges.reason"));
        }
    }
    if !eq_vec_preceding_invoice(&left.preceding, &right.preceding) {
        push(lines, line_differ("preceding"));
    }
    if !eq_opt_payment_instructions(&left.payment, &right.payment) {
        match (&left.payment, &right.payment) {
            (Some(a), Some(b)) => {
                if !eq_opt_code(&a.means_code, &b.means_code) || !eq_opt_payment_means(&a.means, &b.means) {
                    push(lines, line_differ("payment"));
                } else {
                    if !eq_opt_text(&a.remittance, &b.remittance) {
                        push(lines, line_differ("payment.remittance"));
                    }
                    if !eq_opt_text(&a.means_text, &b.means_text) {
                        push(lines, line_differ("payment.means_text"));
                    }
                }
            },
            _ => {
                push(lines, line_differ("payment"));
            },
        }
    }
}

/// The facets of a line that the difference compares.
pub open spec fn line_same(a: Line, b: Line) -> bool {
    &&& a.id@ == b.id@
    &&& a.name@ == b.name@
    &&& a.net.cents() == b.net.cents()
    &&& same_tax_category(a.tax, b.tax)
    &&& same_opt_quantity(a.quantity, b.quantity)
    &&& same_opt_price(a.price, b.price)
    &&& same_vec_tax_category(a.extra_tax@, b.extra_tax@)
    &&& same_opt_amount(a.tax_total, b.tax_total)
    &&& same_vec_line_allowance_charge(a.allowances@, b.allowances@)
    &&& same_vec_line_allowance_charge(a.charges@, b.charges@)
    &&& same_vec_item_attribute(a.attributes@, b.attributes@)
    &&& same_opt_identifier(a.standard_id, b.standard_id)
    &&& same_opt_identifier(a.item_id, b.item_id)
    &&& same_opt_identifier(a.buyer_id, b.buyer_id)
    &&& same_opt_text(a.order_line, b.order_line)
    &&& same_opt_text(a.accounting_reference, b.accounting_reference)
    &&& same_vec_identifier(a.classifications@, b.classifications@)
    &&& same_opt_identifier(a.invoiced_object, b.invoiced_object)
    &&& same_opt_code(a.invoiced_object_code, b.invoiced_object_code)
    &&& same_opt_period(a.period, b.period)
    &&& same_opt_code(a.origin_country, b.origin_country)
}

#[verifier::rlimit(60)]
fn diff_line_head(lines: &mut Vec<String>, i: usize, a: &Line, b: &Line)
    requires
        first_is_line(old(lines)@),
    ensures
        first_is_line(final(lines)@),
        keeps_lines(old(lines)@, final(lines)@),
        final(lines)@.len() >= old(lines)@.len(),
        final(lines)@.len() == old(lines)@.len() <==> (a.id@ == b.id@ && a.name@ == b.name@
            && a.net.cents() == b.net.cents() && same_tax_category(a.tax, b.tax) && same_opt_quantity(
            a.quantity,
            b.quantity,
        ) && same_opt_price(a.price, b.price)),
{
    if !str_eq(a.id.as_str(), b.id.as_str()) {
        let l = indexed("lines", i, ".id");
        push(lines, line_change(l.as_str(), a.id.as_str(), b.id.as_str()));
    }
    if !str_eq(a.name.as_str(), b.name.as_str()) {
        let l = indexed("lines", i, ".name");
        push(lines, line_change(l.as_str(), a.name.as_str(), b.name.as_str()));
    }
    if a.net != b.net {
        let l = indexed("lines", i, ".net");
        let x = a.net.to_string();
        let y = b.net.to_string();
        push(lines, line_change(l.as_str(), x.as_str(), y.as_str()));
    }
    if !eq_tax_category(&a.tax, &b.tax) {
        let l = indexed("lines", i, ".tax");
        push(lines, line_change(l.as_str(), a.tax.code.as_str(), b.tax.code.as_str()));
    }
    if !eq_opt_quantity(a.quantity, b.quantity) {
        let l = indexed("lines", i, ".quantity");
        let x = opt_quantity_text(a.quantity);
        let y = opt_quantity_text(b.quantity);
        push(lines, line_change(l.as_str(), x.as_str(), y.as_str()));
    }
    if !eq_opt_price(&a.price, &b.price) {
        let discount_only = match (&a.price, &b.price) {
            (Some(pa), Some(pb)) => pa.net == pb.net && eq_opt_unit(pa.gross, pb.gross) && eq_opt_quantity(pa.base_qty, pb.base_qty) && eq_opt_code(&pa.base_unit, &pb.base_unit) && !eq_opt_unit(pa.discount, pb.discount),
            _ => false,
        };
        if discount_only {
            push(lines, line_differ("price.discount"));
        } else {
            let l = indexed("lines", i, ".price");
            push(lines, line_differ(l.as_str()));
        }
    }
}

fn diff_line_ids(lines: &mut Vec<String>, a: &Line, b: &Line)
    requires
        first_is_line(old(lines)@),
    ensures
        first_is_line(final(lines)@),
        keeps_lines(old(lines)@, final(lines)@),
        final(lines)@.len() >= old(lines)@.len(),
        final(lines)@.len() == old(lines)@.len() <==> (same_vec_tax_category(a.extra_tax@, b.extra_tax@)
            && same_opt_amount(a.tax_total, b.tax_total) && same_vec_line_allowance_charge(
            a.allowances@,
            b.allowances@,
        ) && same_vec_line_allowance_charge(a.charges@, b.charges@) && same_vec_item_attribute(
            a.attributes@,
            b.attributes@,
        ) && same_opt_identifier(a.standard_id, b.standard_id) && same_opt_identifier(
            a.item_id,
            b.item_id,
        )),
{
    if !eq_vec_tax_category(&a.extra_tax, &b.extra_tax) {
        push(lines, line_differ("lines.extra_tax"));
    }
    if !eq_opt_amount(a.tax_total, b.tax_total) {
        push(lines, line_differ("lines.tax_total"));
    }
    if !eq_vec_line_allowance_charge(&a.allowances, &b.allowances) {
        push(lines, line_differ("lines.allowances"));
    }
    if !eq_vec_line_allowance_charge(&a.charges, &b.charges) {
        push(lines, line_differ("lines.charges"));
    }
    if !eq_vec_item_attribute(&a.attributes, &b.attributes) {
        push(lines, line_differ("lines.attributes"));
    }
    if !eq_opt_identifier(&a.standard_id, &b.standard_id) {
        push(lines, line_differ("lines.standard_id"));
    }
    if !eq_opt_identifier(&a.item_id, &b.item_id) {
        push(lines, line_differ("lines.item_id"));
    }
}

fn diff_line_refs(lines: &mut Vec<String>, a: &Line, b: &Line)
    requires
        first_is_line(old(lines)@),
    ensures
        first_is_line(final(lines)@),
        keeps_lines(old(lines)@, final(lines)@),
        final(lines)@.len() >= old(lines)@.len(),
        final(lines)@.len() == old(lines)@.len() <==> (same_opt_identifier(a.buyer_id, b.buyer_id)
            && same_opt_text(a.order_line, b.order_line) && same_opt_text(
            a.accounting_reference,
            b.accounting_reference,
        ) && same_vec_identifier(a.classifications@, b.classifications@) && same_opt_identifier(
            a.invoiced_object,
            b.invoiced_object,
        ) && same_opt_code(a.invoiced_object_code, b.invoiced_object_code) && same_opt_period(
            a.period,
            b.period,
        ) && same_opt_code(a.origin_country, b.origin_country)),
{
    if !eq_opt_identifier(&a.buyer_id, &b.buyer_id) {
        push(lines, line_differ("lines.buyer_id"));
    }
    if !eq_opt_text(&a.order_line, &b.order_line) {
        push(lines, line_differ("lines.order_line"));
    }
    if !eq_opt_text(&a.accounting_reference, &b.accounting_reference) {
        push(lines, line_differ("lines.accounting_reference"));
    }
    if !eq_vec_identifier(&a.classifications, &b.classifications) {
        push(lines, line_differ("lines.classifications"));
    }
    if !eq_opt_identifier(&a.invoiced_object, &b.invoiced_object) || !eq_opt_code(&a.invoiced_object_code, &b.invoiced_object_code) {
        push(lines, line_differ("lines.invoiced_object"));
    }
    if !eq_opt_period(&a.period, &b.period) {
        push(lines, line_differ("lines.period"));
    }
    if !eq_opt_code(&a.origin_country, &b.origin_country) {
        push(lines, line_differ("lines.origin_country"));
    }
}

/// Tax breakdown, totals, and the lines.
pub open spec fn body_same(a: Invoice, b: Invoice) -> bool {
    &&& same_vec_tax_breakdown(a.tax_breakdown@, b.tax_breakdown@)
    &&& same_opt_document_totals(a.totals, b.totals)
    &&& a.lines@.len() == b.lines@.len()
    &&& forall|i: int| 0 <= i < a.lines@.len() ==> line_same(#[trigger] a.lines@[i], b.lines@[i])
}

fn diff_body(lines: &mut Vec<String>, left: &Invoice, right: &Invoice)
    requires
        first_is_line(old(lines)@),
    ensures
        first_is_line(final(lines)@),
        keeps_lines(old(lines)@, final(lines)@),
        final(lines)@.len() >= old(lines)@.len(),
        final(lines)@.len() == old(lines)@.len() <==> body_same(*left, *right),
{
    let start = lines.len();
    if !eq_vec_tax_breakdown(&left.tax_breakdown, &right.tax_breakdown) {
        push(lines, count_change("tax_breakdown", left.tax_breakdown.len(), right.tax_breakdown.len()));
    }
    if !eq_opt_document_totals(&left.totals, &right.totals) {
        push(lines, line_differ("totals"));
    }
    if left.lines.len() != right.lines.len() {
        push(lines, count_change("lines", left.lines.len(), right.lines.len()));
    }
    let head_same = lines.len() == start;
    let n = if left.lines.len() < right.lines.len() { left.lines.len() } else { right.lines.len() };
    let mut i: usize = 0;
    while i < n
        invariant
            n <= left.lines@.len(),
            n <= right.lines@.len(),
            n == left.lines@.len() || n == right.lines@.len(),
            i <= n,
            first_is_line(lines@),
            keeps_lines(old(lines)@, lines@),
            lines@.len() >= start,
            start >= old(lines)@.len(),
            start == old(lines)@.len(),
            head_same == (same_vec_tax_breakdown(left.tax_breakdown@, right.tax_breakdown@)
                && same_opt_document_totals(left.totals, right.totals) && left.lines@.len() == right.lines@.len()),
            !head_same ==> lines@.len() > start,
            head_same ==> (lines@.len() == start <==> forall|k: int| 0 <= k < i ==> line_same(#[trigger] left.lines@[k], right.lines@[k])),
        decreases n - i,
    {
        let before = lines.len();
        diff_line_head(lines, i, &left.lines[i], &right.lines[i]);
        diff_line_ids(lines, &left.lines[i], &right.lines[i]);
        diff_line_refs(lines, &left.lines[i], &right.lines[i]);
        proof {
            if head_same {
                if lines@.len() == start {
                    assert(line_same(left.lines@[i as int], right.lines@[i as int]));
                } else {
                    if before == start {
                        assert(!line_same(left.lines@[i as int], right.lines@[i as int]));
                    }
                }
            }
        }
        i = i + 1;
    }
}

/// The facets that the difference compares are all the same.
pub open spec fn no_difference(a: Invoice, b: Invoice) -> bool {
    &&& header_same(a, b)
    &&& party_same(a.seller, b.seller)
    &&& party_same(a.buyer, b.buyer)
    &&& notes_same(a, b)
    &&& references_same(a, b)
    &&& money_same(a, b)
    &&& body_same(a, b)
}

/// Joined with newlines.
pub open spec fn joined(s: Seq<String>) -> Seq<char>
    decreases s.len(),
{
    if s.len() <= 1 {
        if s.len() == 1 { s[0]@ } else { Seq::empty() }
    } else {
        joined(s.drop_last()) + "\n"@ + s.last()@
    }
}

proof fn lemma_joined_prefix(s: Seq<String>)
    requires
        s.len() >= 1,
    ensures
        joined(s).len() >= s[0]@.len(),
        joined(s).subrange(0, s[0]@.len() as int) == s[0]@,
    decreases s.len(),
{
    if s.len() > 1 {
        lemma_joined_prefix(s.drop_last());
        assert(s.drop_last()[0] == s[0]);
        let j = joined(s.drop_last());
        assert(joined(s) == j + "\n"@ + s.last()@);
        assert(joined(s).subrange(0, s[0]@.len() as int) =~= j.subrange(0, s[0]@.len() as int));
    } else {
        assert(joined(s).subrange(0, s[0]@.len() as int) =~= s[0]@);
    }
}

/// How the lines of a difference are laid out: the header's lines first,
/// present exactly when the headers differ; then the seller's lines, each
/// starting `seller`, present exactly when the sellers differ; then the
/// buyer's, each starting `buyer`, present exactly when the buyers differ;
/// then the rest.
pub open spec fn diff_layout(left: Invoice, right: Invoice, ls: Seq<String>, a: int, b: int, c: int) -> bool {
    &&& 0 <= a <= b <= c <= ls.len()
    &&& (a > 0 <==> !header_same(left, right))
    &&& (b > a <==> !party_same(left.seller, right.seller))
    &&& (c > b <==> !party_same(left.buyer, right.buyer))
    &&& forall|i: int| a <= i < b ==> starts_with(#[trigger] ls[i]@, "seller"@)
    &&& forall|i: int| b <= i < c ==> starts_with(#[trigger] ls[i]@, "buyer"@)
}

/// The text of a difference from its lines.
pub open spec fn diff_text(ls: Seq<String>) -> Seq<char> {
    if ls.len() == 0 { "no semantic difference"@ } else { joined(ls) }
}

/// Text of the semantic difference of two invoices: `no semantic difference`
/// exactly when every compared facet is the same, otherwise one line per
/// differing facet, laid out as [`diff_layout`] says.
#[verifier::rlimit(60)]
pub fn diff_invoices(left: &Invoice, right: &Invoice) -> (r: String)
    ensures
        (r@ == "no semantic difference"@) <==> no_difference(*left, *right),
        exists|ls: Seq<String>, a: int, b: int, c: int| #[trigger] diff_layout(*left, *right, ls, a, b, c) && r@ == diff_text(ls),
{
    let mut lines: Vec<String> = Vec::new();
    diff_header(&mut lines, left, right);
    let ghost a = lines@.len() as int;
    diff_party(&mut lines, "seller", &left.seller, &right.seller);
    let ghost b = lines@.len() as int;
    let ghost l1 = lines@;
    diff_party(&mut lines, "buyer", &left.buyer, &right.buyer);
    let ghost c = lines@.len() as int;
    let ghost l2 = lines@;
    diff_notes(&mut lines, left, right);
    diff_references(&mut lines, left, right);
    diff_money(&mut lines, left, right);
    diff_body(&mut lines, left, right);
    proof {
        assert forall|i: int| a <= i < b implies starts_with(#[trigger] lines@[i]@, "seller"@) by {
            assert(lines@[i] == l2[i]);
            assert(l2[i] == l1[i]);
        }
        assert forall|i: int| b <= i < c implies starts_with(#[trigger] lines@[i]@, "buyer"@) by {
            assert(lines@[i] == l2[i]);
        }
        assert(diff_layout(*left, *right, lines@, a, b, c));
    }
    proof {
        reveal_strlit("no semantic difference");
    }
    if lines.len() == 0 {
        let t = owned("no semantic difference");
        assert(t@ == diff_text(lines@));
        return t;
    }
    let mut s = owned(lines[0].as_str());
    let mut i: usize = 1;
    assert(lines@.take(1) =~= seq![lines@[0]]);
    while i < lines.len()
        invariant
            1 <= i <= lines.len(),
            s@ == joined(lines@.take(i as int)),
        decreases lines.len() - i,
    {
        s.append("\n");
        s.append(lines[i].as_str());
        assert(lines@.take(i + 1).drop_last() =~= lines@.take(i as int));
        i = i + 1;
    }
    assert(lines@.take(lines@.len() as int) =~= lines@);
    proof {
        lemma_joined_prefix(lines@);
        let k = choose|k: int| 0 <= k < lines@[0]@.len() && lines@[0]@[k] == ':';
        assert(s@[k] == ':');
        let lit = "no semantic difference"@;
        assert(lit =~= seq!['n', 'o', ' ', 's', 'e', 'm', 'a', 'n', 't', 'i', 'c', ' ', 'd', 'i', 'f', 'f', 'e', 'r', 'e', 'n', 'c', 'e']);
        assert(forall|j: int| 0 <= j < lit.len() ==> lit[j] != ':');
        if s@ == lit {
            assert(lit[k] == ':');
        }
        assert(s@ == diff_text(lines@));
    }
    s
}
} // verus!
