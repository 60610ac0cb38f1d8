//! Semantic invoice: parties, lines, totals, and the groups of the model.
use vstd::prelude::*;
use crate::amount::{InvoiceAmount, UnitPriceAmount, cents_sum, sum_fits};
use crate::attachment::Attachment;
use crate::code::Code;
use crate::date::Date;
use crate::identifier::{DocumentReference, Identifier};
use crate::kind::DocumentKind;
use crate::numeric::{Percentage, Quantity};
use crate::payment::PaymentMeans;
use crate::profile::{Profile, profile_process_id, profile_spec_id};
use crate::tax::{TaxCategory, TaxSystem};
use crate::text::{blank, is_blank, owned};

verus! {

/// Postal address. Country is the last field.
#[derive(Debug, Clone, PartialEq, Eq)]
pub struct PostalAddress {
    /// Street.
    pub line1: Option<String>,
    /// Additional street.
    pub line2: Option<String>,
    /// Additional address line.
    pub line3: Option<String>,
    /// City.
    pub city: Option<String>,
    /// Post code.
    pub post_code: Option<String>,
    /// Subdivision.
    pub subdivision: Option<String>,
    /// Country code.
    pub country: Option<Code>,
}

impl Default for PostalAddress {
    fn default() -> (r: PostalAddress)
        ensures
            r.line1 is None && r.line2 is None && r.line3 is None && r.city is None
                && r.post_code is None && r.subdivision is None && r.country is None,
    {
        PostalAddress {
            line1: None,
            line2: None,
            line3: None,
            city: None,
            post_code: None,
            subdivision: None,
            country: None,
        }
    }
}

/// Contact.
#[derive(Debug, Clone, PartialEq, Eq)]
pub struct Contact {
    /// Contact point.
    pub point: Option<String>,
    /// Telephone.
    pub phone: Option<String>,
    /// E-mail.
    pub email: Option<String>,
}

impl Default for Contact {
    fn default() -> (r: Contact)
        ensures
            r.point is None && r.phone is None && r.email is None,
    {
        Contact { point: None, phone: None, email: None }
    }
}

/// Extra tax scheme row of a party (PINT-MY SST, TIN, TTX).
#[derive(Debug, Clone, PartialEq, Eq)]
pub struct PartyTax {
    /// Tax identifier on this row.
    pub id: Identifier,
    /// TaxScheme id (`VAT`, `GST`, `AAL`). Never `SST`.
    pub scheme: String,
}

/// Seller or buyer. Identifiers are four separate slots; the country lives on
/// the postal address.
#[derive(Debug, Clone, PartialEq, Eq)]
pub struct Party {
    /// Name.
    pub name: String,
    /// Trading name.
    pub trading_name: Option<String>,
    /// Party identifiers.
    pub identifiers: Vec<Identifier>,
    /// Legal registration (PINT-MY BRN, unschemed).
    pub legal_registration: Option<Identifier>,
    /// VAT identifier.
    pub vat_identifier: Option<Identifier>,
    /// Seller tax registration (PINT-MY TIN, scheme `GST`).
    pub tax_registration: Option<Identifier>,
    /// Electronic address.
    pub electronic_address: Option<Identifier>,
    /// Extra tax scheme rows.
    pub party_taxes: Vec<PartyTax>,
    /// Additional legal information.
    pub additional_legal: Option<String>,
    /// Postal address.
    pub address: Option<PostalAddress>,
    /// Contact.
    pub contact: Option<Contact>,
}

/// Country code of a party as text: empty when the address or the code is absent.
pub open spec fn party_country(p: Party) -> Seq<char> {
    match p.address {
        Some(a) => match a.country {
            Some(c) => c@,
            None => Seq::empty(),
        },
        None => Seq::empty(),
    }
}

impl Party {
    /// Name plus country on the postal address; a blank country leaves the
    /// address absent.
    pub fn new(name: &str, country: &str) -> (r: Party)
        ensures
            r.name@ == name@,
            blank(country@) ==> r.address is None,
            !blank(country@) ==> (r.address matches Some(a) && a.country matches Some(c) && c@
                == country@ && a.line1 is None && a.line2 is None && a.line3 is None && a.city is None
                && a.post_code is None && a.subdivision is None),
            r.trading_name is None,
            r.identifiers@.len() == 0,
            r.legal_registration is None,
            r.vat_identifier is None,
            r.tax_registration is None,
            r.electronic_address is None,
            r.party_taxes@.len() == 0,
            r.additional_legal is None,
            r.contact is None,
    {
        let address = if is_blank(country) {
            None
        } else {
            let mut a = PostalAddress::default();
            a.country = Some(Code::new(country));
            Some(a)
        };
        Party {
            name: owned(name),
            trading_name: None,
            identifiers: Vec::new(),
            legal_registration: None,
            vat_identifier: None,
            tax_registration: None,
            electronic_address: None,
            party_taxes: Vec::new(),
            additional_legal: None,
            address,
            contact: None,
        }
    }

    /// Country code from the postal address; empty when absent.
    pub fn country(&self) -> (r: &str)
        ensures
            r@ == party_country(*self),
    {
        match &self.address {
            Some(a) => match &a.country {
                Some(c) => c.as_str(),
                None => {
                    proof {
                        reveal_strlit("");
                    }
                    ""
                },
            },
            None => {
                proof {
                    reveal_strlit("");
                }
                ""
            },
        }
    }
}

/// Item price: net, discount and gross are unit prices, not amounts.
#[derive(Debug, Clone, PartialEq)]
pub struct Price {
    /// Item net price.
    pub net: UnitPriceAmount,
    /// Item price discount.
    pub discount: Option<UnitPriceAmount>,
    /// Item gross price.
    pub gross: Option<UnitPriceAmount>,
    /// Item price base quantity.
    pub base_qty: Option<Quantity>,
    /// Item price base quantity unit.
    pub base_unit: Option<Code>,
}

/// Line allowance or charge. It has no tax category of its own: it takes
/// the line's.
#[derive(Debug, Clone, PartialEq)]
pub struct LineAllowanceCharge {
    /// Amount.
    pub amount: InvoiceAmount,
    /// Base amount.
    pub base: Option<InvoiceAmount>,
    /// Percentage.
    pub percent: Option<Percentage>,
    /// Reason.
    pub reason: Option<String>,
    /// Reason code.
    pub reason_code: Option<Code>,
}

/// Invoice line.
#[derive(Debug, Clone, PartialEq)]
pub struct Line {
    /// Line identifier.
    pub id: String,
    /// Item name.
    pub name: String,
    /// Line net amount.
    pub net: InvoiceAmount,
    /// Classified tax category.
    pub tax: TaxCategory,
    /// Invoiced quantity.
    pub quantity: Option<Quantity>,
    /// Unit of measure.
    pub unit: Option<Code>,
    /// Item price.
    pub price: Option<Price>,
    /// Line note.
    pub note: Option<String>,
    /// Item description.
    pub description: Option<String>,
    /// Line invoicing period.
    pub period: Option<Period>,
    /// Line allowances.
    pub allowances: Vec<LineAllowanceCharge>,
    /// Line charges.
    pub charges: Vec<LineAllowanceCharge>,
    /// Item standard identifier.
    pub standard_id: Option<Identifier>,
    /// Seller's item identifier.
    pub item_id: Option<Identifier>,
    /// Buyer's item identifier.
    pub buyer_id: Option<Identifier>,
    /// Referenced purchase order line.
    pub order_line: Option<String>,
    /// Line buyer accounting reference.
    pub accounting_reference: Option<String>,
    /// Item attributes.
    pub attributes: Vec<ItemAttribute>,
    /// Item origin country.
    pub origin_country: Option<Code>,
    /// Classification identifiers.
    pub classifications: Vec<Identifier>,
    /// Line invoiced object.
    pub invoiced_object: Option<Identifier>,
    /// Document type code of the line document reference; absent means 130.
    pub invoiced_object_code: Option<Code>,
    /// Extra classified tax categories after the first (PINT-MY TTX).
    pub extra_tax: Vec<TaxCategory>,
    /// Line tax total amount.
    pub tax_total: Option<InvoiceAmount>,
}

impl Line {
    /// Line id, name, net amount and tax category. Quantity and price are
    /// not invented.
    pub fn new(id: &str, name: &str, net: InvoiceAmount, tax: TaxCategory) -> (r: Line)
        ensures
            r.id@ == id@,
            r.name@ == name@,
            r.net == net,
            r.tax == tax,
            r.quantity is None && r.unit is None && r.price is None && r.note is None
                && r.description is None && r.period is None,
            r.allowances@.len() == 0 && r.charges@.len() == 0 && r.attributes@.len() == 0
                && r.classifications@.len() == 0 && r.extra_tax@.len() == 0,
            r.standard_id is None && r.item_id is None && r.buyer_id is None && r.order_line is None
                && r.accounting_reference is None && r.origin_country is None
                && r.invoiced_object is None && r.invoiced_object_code is None
                && r.tax_total is None,
    {
        Line {
            id: owned(id),
            name: owned(name),
            net,
            tax,
            quantity: None,
            unit: None,
            price: None,
            note: None,
            description: None,
            period: None,
            allowances: Vec::new(),
            charges: Vec::new(),
            standard_id: None,
            item_id: None,
            buyer_id: None,
            order_line: None,
            accounting_reference: None,
            attributes: Vec::new(),
            origin_country: None,
            classifications: Vec::new(),
            invoiced_object: None,
            invoiced_object_code: None,
            extra_tax: Vec::new(),
            tax_total: None,
        }
    }
}

/// Item attribute: name and value.
#[derive(Debug, Clone, PartialEq, Eq)]
pub struct ItemAttribute {
    /// Attribute name.
    pub name: String,
    /// Attribute value.
    pub value: String,
}

/// Invoice note.
#[derive(Debug, Clone, PartialEq, Eq)]
pub struct InvoiceNote {
    /// Subject code.
    pub subject: Option<Code>,
    /// Note text.
    pub text: String,
}

/// Preceding invoice reference.
#[derive(Debug, Clone, PartialEq, Eq)]
pub struct PrecedingInvoice {
    /// Preceding invoice reference.
    pub reference: DocumentReference,
    /// Preceding invoice issue date.
    pub issue_date: Option<Date>,
}

/// Invoicing period of the document or of a line.
#[derive(Debug, Clone, PartialEq, Eq)]
pub struct Period {
    /// Start date.
    pub start: Option<Date>,
    /// End date.
    pub end: Option<Date>,
}

/// Payee, if different from the seller.
#[derive(Debug, Clone, PartialEq, Eq)]
pub struct Payee {
    /// Payee name.
    pub name: String,
    /// Payee identifier.
    pub identifier: Option<Identifier>,
    /// Payee legal registration identifier.
    pub legal_registration: Option<Identifier>,
}

/// Seller tax representative.
#[derive(Debug, Clone, PartialEq, Eq)]
pub struct TaxRepresentative {
    /// Name.
    pub name: String,
    /// VAT identifier.
    pub vat_identifier: Option<Identifier>,
    /// Postal address.
    pub address: Option<PostalAddress>,
}

/// Delivery information.
#[derive(Debug, Clone, PartialEq, Eq)]
pub struct Delivery {
    /// Deliver-to party name.
    pub name: Option<String>,
    /// Deliver-to location identifier.
    pub location_id: Option<Identifier>,
    /// Actual delivery date.
    pub date: Option<Date>,
    /// Deliver-to address.
    pub address: Option<PostalAddress>,
}

/// Payment instructions. Accounts, card and mandate live only on the
/// exclusive [`PaymentMeans`].
#[derive(Debug, Clone, PartialEq, Eq)]
pub struct PaymentInstructions {
    /// Payment means type code.
    pub means_code: Option<Code>,
    /// Payment means text.
    pub means_text: Option<String>,
    /// Remittance information.
    pub remittance: Option<String>,
    /// Credit transfer, card or direct debit.
    pub means: Option<PaymentMeans>,
}

/// Document level allowance or charge.
#[derive(Debug, Clone, PartialEq)]
pub struct AllowanceCharge {
    /// Amount.
    pub amount: InvoiceAmount,
    /// Base amount.
    pub base: Option<InvoiceAmount>,
    /// Percentage.
    pub percent: Option<Percentage>,
    /// Reason.
    pub reason: Option<String>,
    /// Reason code.
    pub reason_code: Option<Code>,
    /// Tax category and rate.
    pub tax: Option<TaxCategory>,
}

/// Tax breakdown row.
#[derive(Debug, Clone, PartialEq)]
pub struct TaxBreakdown {
    /// In-memory tax system.
    pub system: TaxSystem,
    /// TaxScheme id (`VAT`, `GST`, `AAL`). Never `SST`.
    pub scheme: String,
    /// Category code.
    pub category: Code,
    /// Rate; none for EN `O` and PINT-MY `TTX`.
    pub rate: Option<Percentage>,
    /// Taxable amount.
    pub taxable: InvoiceAmount,
    /// Tax amount.
    pub tax: InvoiceAmount,
    /// Exemption reason.
    pub exemption_reason: Option<String>,
    /// Exemption reason code.
    pub exemption_code: Option<Code>,
}

/// Document totals. Absent optional amounts are `None`, not zero.
#[derive(Debug, Clone, PartialEq)]
pub struct DocumentTotals {
    /// Sum of line net amounts.
    pub line_net: Option<InvoiceAmount>,
    /// Sum of document level allowances.
    pub allowance_total: Option<InvoiceAmount>,
    /// Sum of document level charges.
    pub charge_total: Option<InvoiceAmount>,
    /// Total without tax.
    pub without_tax: Option<InvoiceAmount>,
    /// Total tax amount.
    pub tax_total: Option<InvoiceAmount>,
    /// Total tax amount in accounting currency.
    pub tax_total_accounting: Option<InvoiceAmount>,
    /// Total with tax.
    pub with_tax: Option<InvoiceAmount>,
    /// Paid amount.
    pub paid: Option<InvoiceAmount>,
    /// Rounding amount.
    pub rounding: Option<InvoiceAmount>,
    /// Amount due for payment; a missing one is `None`, not zero.
    pub payable: Option<InvoiceAmount>,
}

impl Default for DocumentTotals {
    fn default() -> (r: DocumentTotals)
        ensures
            r.line_net is None && r.allowance_total is None && r.charge_total is None
                && r.without_tax is None && r.tax_total is None && r.tax_total_accounting is None
                && r.with_tax is None && r.paid is None && r.rounding is None && r.payable is None,
    {
        DocumentTotals {
            line_net: None,
            allowance_total: None,
            charge_total: None,
            without_tax: None,
            tax_total: None,
            tax_total_accounting: None,
            with_tax: None,
            paid: None,
            rounding: None,
            payable: None,
        }
    }
}

/// Additional supporting document.
#[derive(Debug, Clone, PartialEq, Eq)]
pub struct SupportingDocument {
    /// Supporting document reference.
    pub id: DocumentReference,
    /// Description.
    pub description: Option<String>,
    /// External document location.
    pub uri: Option<String>,
    /// Attached document.
    pub attachment: Option<Attachment>,
}

/// Semantic invoice.
#[derive(Debug, Clone, PartialEq)]
pub struct Invoice {
    /// Rule set used by validation. Not BT-24; that is `specification_id`.
    pub profile: Profile,
    /// Specification identifier (BT-24).
    pub specification_id: Option<String>,
    /// Syntax root analogue; not derived from the type code.
    pub kind: DocumentKind,
    /// Invoice number.
    pub number: String,
    /// Invoice currency.
    pub currency: String,
    /// Issue date.
    pub issue_date: Option<Date>,
    /// Invoice type code.
    pub type_code: Option<Code>,
    /// Tax accounting currency.
    pub tax_currency: Option<Code>,
    /// Payment due date.
    pub due_date: Option<Date>,
    /// Tax point date.
    pub tax_point_date: Option<Date>,
    /// Tax point date code.
    pub tax_point_code: Option<Code>,
    /// Business process type (BT-23).
    pub business_process: Option<String>,
    /// Buyer reference.
    pub buyer_reference: Option<DocumentReference>,
    /// Project reference.
    pub project: Option<DocumentReference>,
    /// Contract reference.
    pub contract: Option<DocumentReference>,
    /// Purchase order reference.
    pub purchase_order: Option<DocumentReference>,
    /// Sales order reference.
    pub sales_order: Option<DocumentReference>,
    /// Receiving advice reference.
    pub receiving_advice: Option<DocumentReference>,
    /// Despatch advice reference.
    pub despatch: Option<DocumentReference>,
    /// Tender or lot reference.
    pub tender: Option<DocumentReference>,
    /// Invoiced object identifier.
    pub invoiced_object: Option<Identifier>,
    /// Buyer accounting reference.
    pub buyer_accounting: Option<String>,
    /// Payment terms.
    pub payment_terms: Option<String>,
    /// Notes.
    pub notes: Vec<InvoiceNote>,
    /// Preceding invoice references.
    pub preceding: Vec<PrecedingInvoice>,
    /// Seller.
    pub seller: Party,
    /// Buyer.
    pub buyer: Party,
    /// Payee.
    pub payee: Option<Payee>,
    /// Seller tax representative.
    pub tax_representative: Option<TaxRepresentative>,
    /// Delivery.
    pub delivery: Option<Delivery>,
    /// Invoicing period.
    pub period: Option<Period>,
    /// Payment instructions.
    pub payment: Option<PaymentInstructions>,
    /// Document level allowances.
    pub document_allowances: Vec<AllowanceCharge>,
    /// Document level charges.
    pub document_charges: Vec<AllowanceCharge>,
    /// Tax breakdown.
    pub tax_breakdown: Vec<TaxBreakdown>,
    /// Document totals.
    pub totals: Option<DocumentTotals>,
    /// Additional supporting documents.
    pub supporting_documents: Vec<SupportingDocument>,
    /// Invoice lines.
    pub lines: Vec<Line>,
}

/// Amount due for payment recorded in the totals.
pub open spec fn payable_of(inv: Invoice) -> Option<InvoiceAmount> {
    match inv.totals {
        Some(t) => t.payable,
        None => None,
    }
}

/// The net amounts of the lines, in order.
pub open spec fn line_nets(lines: Seq<Line>) -> Seq<InvoiceAmount> {
    Seq::new(lines.len(), |i: int| lines[i].net)
}

impl Invoice {
    /// An invoice with the profile's specification id (BT-24) and nothing
    /// else set beyond the arguments.
    pub fn blank(profile: Profile, number: &str, currency: &str, seller: Party, buyer: Party) -> (r:
        Invoice)
        ensures
            r.profile == profile,
            r.specification_id matches Some(s) && s@ == profile_spec_id(profile),
            r.kind == DocumentKind::Invoice,
            r.number@ == number@,
            r.currency@ == currency@,
            r.seller == seller,
            r.buyer == buyer,
            r.issue_date is None && r.type_code is None && r.tax_currency is None
                && r.due_date is None && r.tax_point_date is None && r.tax_point_code is None
                && r.business_process is None,
            r.buyer_reference is None && r.project is None && r.contract is None
                && r.purchase_order is None && r.sales_order is None && r.receiving_advice is None
                && r.despatch is None && r.tender is None && r.invoiced_object is None
                && r.buyer_accounting is None && r.payment_terms is None,
            r.payee is None && r.tax_representative is None && r.delivery is None
                && r.period is None && r.payment is None && r.totals is None,
            r.notes@.len() == 0 && r.preceding@.len() == 0 && r.document_allowances@.len() == 0
                && r.document_charges@.len() == 0 && r.tax_breakdown@.len() == 0
                && r.supporting_documents@.len() == 0 && r.lines@.len() == 0,
    {
        Invoice {
            profile,
            specification_id: Some(owned(profile.specification_id())),
            kind: DocumentKind::Invoice,
            number: owned(number),
            currency: owned(currency),
            issue_date: None,
            type_code: None,
            tax_currency: None,
            due_date: None,
            tax_point_date: None,
            tax_point_code: None,
            business_process: None,
            buyer_reference: None,
            project: None,
            contract: None,
            purchase_order: None,
            sales_order: None,
            receiving_advice: None,
            despatch: None,
            tender: None,
            invoiced_object: None,
            buyer_accounting: None,
            payment_terms: None,
            notes: Vec::new(),
            preceding: Vec::new(),
            seller,
            buyer,
            payee: None,
            tax_representative: None,
            delivery: None,
            period: None,
            payment: None,
            document_allowances: Vec::new(),
            document_charges: Vec::new(),
            tax_breakdown: Vec::new(),
            totals: None,
            supporting_documents: Vec::new(),
            lines: Vec::new(),
        }
    }

    /// Amount due for payment from the totals; absent totals or an absent
    /// amount is `None`, not zero.
    pub fn payable(&self) -> (r: Option<InvoiceAmount>)
        ensures
            r == payable_of(*self),
    {
        match &self.totals {
            Some(t) => t.payable,
            None => None,
        }
    }

    /// Total tax amount from the totals; absent is `None`, not zero.
    pub fn tax_total(&self) -> (r: Option<InvoiceAmount>)
        ensures
            r == (match self.totals {
                Some(t) => t.tax_total,
                None => None,
            }),
    {
        match &self.totals {
            Some(t) => t.tax_total,
            None => None,
        }
    }

    /// Takes BT-24 and BT-23 from the profile. EN 16931 has no process id:
    /// BT-23 is then left as it was. An unknown profile stamps nothing else.
    pub fn stamp_profile(&mut self, profile: Profile)
        ensures
            stamped_from(*final(self), *old(self), profile),
            final(self).profile == profile,
            profile == Profile::Unknown ==> final(self).specification_id == old(
                self,
            ).specification_id && final(self).business_process == old(self).business_process,
            profile != Profile::Unknown ==> (final(self).specification_id matches Some(s) && s@
                == profile_spec_id(profile)),
            profile != Profile::Unknown ==> match profile_process_id(profile) {
                Some(p) => final(self).business_process matches Some(b) && b@ == p@,
                None => final(self).business_process == old(self).business_process,
            },
            final(self).number == old(self).number,
            final(self).lines == old(self).lines,
            final(self).totals == old(self).totals,
    {
        self.profile = profile;
        if profile == Profile::Unknown {
            return;
        }
        self.specification_id = Some(owned(profile.specification_id()));
        match profile.process_id() {
            Some(p) => {
                self.business_process = Some(owned(p));
            },
            None => {},
        }
    }

    /// Sum of the line net amounts; `None` on overflow.
    pub fn line_net_sum(&self) -> (r: Option<InvoiceAmount>)
        ensures
            sum_fits(line_nets(self.lines@)) ==> (r matches Some(a) && a.cents() == cents_sum(
                line_nets(self.lines@),
            )),
    {
        let mut nets: Vec<InvoiceAmount> = Vec::new();
        let mut i: usize = 0;
        while i < self.lines.len()
            invariant
                i <= self.lines@.len(),
                nets@ == line_nets(self.lines@).take(i as int),
            decreases self.lines.len() - i,
        {
            nets.push(self.lines[i].net);
            assert(line_nets(self.lines@).take(i + 1) =~= line_nets(self.lines@).take(i as int).push(
                self.lines@[i as int].net,
            ));
            i = i + 1;
        }
        assert(line_nets(self.lines@).take(self.lines@.len() as int) =~= line_nets(self.lines@));
        InvoiceAmount::checked_sum(nets.as_slice())
    }

    /// Credit note from this invoice: new number and date, one preceding
    /// invoice reference to the original, type code `381`, amounts not negated.
    pub fn to_credit_note(self, new_number: &str, new_issue_date: Date) -> (r: Invoice)
        ensures
            r.kind == DocumentKind::CreditNote,
            r.type_code matches Some(c) && c@ == "381"@,
            r.preceding@.len() == 1,
            r.preceding@[0].reference.0@ == self.number@,
            r.preceding@[0].issue_date == self.issue_date,
            r.number@ == new_number@,
            r.issue_date == Some(new_issue_date),
            r.lines == self.lines,
            r.totals == self.totals,
            r.tax_breakdown == self.tax_breakdown,
            r.document_allowances == self.document_allowances,
            r.document_charges == self.document_charges,
            r.seller == self.seller,
            r.buyer == self.buyer,
            r.profile == self.profile,
            r.currency == self.currency,
            r == (Invoice {
                kind: r.kind,
                type_code: r.type_code,
                preceding: r.preceding,
                number: r.number,
                issue_date: r.issue_date,
                ..self
            }),
    {
        let mut next = self;
        let original_number = owned(next.number.as_str());
        let original_date = next.issue_date;
        next.kind = DocumentKind::CreditNote;
        next.type_code = Some(Code::new("381"));
        let mut preceding: Vec<PrecedingInvoice> = Vec::new();
        preceding.push(
            PrecedingInvoice {
                reference: DocumentReference(original_number),
                issue_date: original_date,
            },
        );
        next.preceding = preceding;
        next.number = owned(new_number);
        next.issue_date = Some(new_issue_date);
        next
    }
}

/// `after` is `before` stamped with the profile: the profile set; unless the
/// profile is unknown, BT-24 the profile's and BT-23 the profile's where it
/// has one; every other field as it was.
pub open spec fn stamped_from(after: Invoice, before: Invoice, profile: Profile) -> bool {
    &&& after == (Invoice {
        profile: after.profile,
        specification_id: after.specification_id,
        business_process: after.business_process,
        ..before
    })
    &&& after.profile == profile
    &&& profile == Profile::Unknown ==> after.specification_id == before.specification_id && after.business_process
        == before.business_process
    &&& profile != Profile::Unknown ==> (after.specification_id matches Some(s) && s@ == profile_spec_id(profile))
    &&& profile != Profile::Unknown ==> match profile_process_id(profile) {
        Some(p) => after.business_process matches Some(b) && b@ == p@,
        None => after.business_process == before.business_process,
    }
}

} // verus!
