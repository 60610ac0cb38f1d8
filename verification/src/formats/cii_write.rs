//! Writing UN/CEFACT CII D16B documents from the model: the three-part
//! envelope, with the line items before the header agreement, delivery and
//! settlement. Dates are written in format 102.
use vstd::prelude::*;
use crate::amount::InvoiceAmount;
use crate::code::Code;
use crate::date::{Date, date_102_text};
use crate::dec::{Dec, decimal_text, normal_text};
use crate::formats::tree::opt_text;
use crate::formats::xml_out::{amount_el, amount_text, attr_view, close_el, close_text, grows, leaf_el, leaf_text, open_el, open_text, opt_attr_text};
use crate::formats::FormatError;
use crate::identifier::{DocumentReference, Identifier};
use crate::invoice::{
    party_country, AllowanceCharge, DocumentTotals, Invoice, InvoiceNote, ItemAttribute, PaymentInstructions, PrecedingInvoice, TaxBreakdown, Line, LineAllowanceCharge, Party, Payee, Period, PostalAddress, Price,
    SupportingDocument, TaxRepresentative,
};
use crate::numeric::Quantity;
use crate::payment::{CreditTransfer, PaymentMeans};
use crate::profile::{Profile, profile_spec_id};
use crate::tax::{wire_scheme, wire_scheme_of};
use crate::text::{contains, has_chars, lemma_contains_ends, lemma_contains_piece, lemma_contains_trans, owned};

verus! {

/// CII root namespace.
pub const NS_RSM: &'static str = "urn:un:unece:uncefact:data:standard:CrossIndustryInvoice:100";

/// CII aggregate namespace.
pub const NS_RAM: &'static str = "urn:un:unece:uncefact:data:standard:ReusableAggregateBusinessInformationEntity:100";

/// CII unqualified data type namespace.
pub const NS_UDT: &'static str = "urn:un:unece:uncefact:data:standard:UnqualifiedDataType:100";

/// `<ram:tag>` at depth `n`.
#[verifier::opaque]
pub open spec fn ro(n: nat, tag: Seq<char>) -> Seq<char> {
    open_text(n, "ram"@, tag)
}

/// `</ram:tag>` at depth `n`.
#[verifier::opaque]
pub open spec fn rc(n: nat, tag: Seq<char>) -> Seq<char> {
    close_text(n, "ram"@, tag)
}

/// `<ram:tag>value</ram:tag>` at depth `n`, with an optional attribute.
#[verifier::opaque]
pub open spec fn rl(n: nat, tag: Seq<char>, value: Seq<char>, attr: Option<(Seq<char>, Seq<char>)>) -> Seq<char> {
    leaf_text(n, "ram"@, tag, opt_attr_text(attr), value)
}

/// An amount element with its currency at depth `n`.
#[verifier::opaque]
pub open spec fn ra(n: nat, tag: Seq<char>, value: Dec, cur: Seq<char>) -> Seq<char> {
    amount_text(n, "ram"@, tag, decimal_text(value), cur)
}

/// `<udt:tag attr>value</udt:tag>` at depth `n`.
#[verifier::opaque]
pub open spec fn ul(n: nat, tag: Seq<char>, value: Seq<char>, attr: Option<(Seq<char>, Seq<char>)>) -> Seq<char> {
    leaf_text(n, "udt"@, tag, opt_attr_text(attr), value)
}

/// A text where the condition holds, else nothing.
pub open spec fn when(b: bool, t: Seq<char>) -> Seq<char> {
    if b { t } else { Seq::empty() }
}

/// A `ram` leaf for an optional text, nothing where it is absent.
pub open spec fn opt_rl(n: nat, tag: Seq<char>, v: Option<Seq<char>>) -> Seq<char> {
    match v {
        Some(t) => rl(n, tag, t, None),
        None => Seq::empty(),
    }
}

/// The text of an optional code.
pub open spec fn code_text(v: Option<Code>) -> Option<Seq<char>> {
    match v {
        Some(c) => Some(c@),
        None => None,
    }
}

/// The text of an optional reference.
pub open spec fn ref_text(v: Option<DocumentReference>) -> Option<Seq<char>> {
    match v {
        Some(r) => Some(r.0@),
        None => None,
    }
}

/// An amount element for an optional amount.
pub open spec fn opt_ra(n: nat, tag: Seq<char>, v: Option<InvoiceAmount>, cur: Seq<char>) -> Seq<char> {
    match v {
        Some(a) => ra(n, tag, a.dec(), cur),
        None => Seq::empty(),
    }
}

/// A date element holding a format 102 date string.
pub open spec fn date102_text(n: nat, tag: Seq<char>, d: Date) -> Seq<char> {
    ro(n, tag) + ul(n + 1, "DateTimeString"@, date_102_text(d), Some(("format"@, "102"@))) + rc(n, tag)
}

/// A charge indicator element.
pub open spec fn indicator_text(n: nat, charge: bool) -> Seq<char> {
    ro(n, "ChargeIndicator"@) + ul(n + 1, "Indicator"@, if charge { "true"@ } else { "false"@ }, None) + rc(
        n,
        "ChargeIndicator"@,
    )
}

/// An identifier with its `schemeID`.
pub open spec fn ident_text(n: nat, tag: Seq<char>, id: Identifier) -> Seq<char> {
    rl(
        n,
        tag,
        id.value@,
        match id.scheme {
            Some(sc) => Some(("schemeID"@, sc@)),
            None => None,
        },
    )
}

/// An identifier as `GlobalID` where it has a scheme, else as `ID`.
pub open spec fn party_id_text(n: nat, id: Identifier) -> Seq<char> {
    if id.scheme is Some {
        ident_text(n, "GlobalID"@, id)
    } else {
        rl(n, "ID"@, id.value@, None)
    }
}

/// Appending `u` after `a + t` is appending `t + u` after `a`.
proof fn lemma_app(a: Seq<char>, t: Seq<char>, u: Seq<char>)
    ensures
        (a + t) + u == a + (t + u),
{
    assert((a + t) + u =~= a + (t + u));
}

/// `a` is a prefix of `a + t`.
proof fn lemma_grows_by(a: Seq<char>, t: Seq<char>)
    ensures
        grows(a, a + t),
{
}

/// Open an aggregate element.
fn open(s: &mut String, n: usize, tag: &str)
    ensures
        final(s)@ == old(s)@ + ro(n as nat, tag@),
{
    proof {
        reveal(ro);
    }
    open_el(s, n, "ram", tag);
}

/// Close an aggregate element.
fn close(s: &mut String, n: usize, tag: &str)
    ensures
        final(s)@ == old(s)@ + rc(n as nat, tag@),
{
    proof {
        reveal(rc);
    }
    close_el(s, n, "ram", tag);
}

/// A basic element with its text and an optional attribute.
fn leaf_ram(s: &mut String, n: usize, tag: &str, value: &str, attr: Option<(&str, &str)>)
    ensures
        final(s)@ == old(s)@ + rl(n as nat, tag@, value@, attr_view(attr)),
{
    proof {
        reveal(rl);
    }
    leaf_el(s, n, "ram", tag, value, attr);
}

/// An amount with its currency.
fn amount_ram(s: &mut String, n: usize, tag: &str, value: InvoiceAmount, cur: &str)
    ensures
        final(s)@ == old(s)@ + ra(n as nat, tag@, value.dec(), cur@),
{
    proof {
        reveal(ra);
    }
    let t = value.to_string();
    amount_el(s, n, "ram", tag, t.as_str(), cur);
}

/// A `udt` element with its text and an optional attribute.
fn leaf_udt(s: &mut String, n: usize, tag: &str, value: &str, attr: Option<(&str, &str)>)
    ensures
        final(s)@ == old(s)@ + ul(n as nat, tag@, value@, attr_view(attr)),
{
    proof {
        reveal(ul);
    }
    leaf_el(s, n, "udt", tag, value, attr);
}

/// A leaf for an optional text.
fn opt_leaf(s: &mut String, n: usize, tag: &str, v: &Option<String>)
    ensures
        final(s)@ == old(s)@ + opt_rl(n as nat, tag@, opt_text(*v)),
{
    if let Some(t) = v {
        leaf_ram(s, n, tag, t.as_str(), None);
    } else {
        assert(s@ =~= s@ + Seq::<char>::empty());
    }
}

/// A leaf for an optional code.
fn opt_code_leaf(s: &mut String, n: usize, tag: &str, v: &Option<Code>)
    ensures
        final(s)@ == old(s)@ + opt_rl(n as nat, tag@, code_text(*v)),
{
    if let Some(c) = v {
        leaf_ram(s, n, tag, c.as_str(), None);
    } else {
        assert(s@ =~= s@ + Seq::<char>::empty());
    }
}

/// An amount for an optional amount.
fn opt_amount(s: &mut String, n: usize, tag: &str, v: Option<InvoiceAmount>, cur: &str)
    ensures
        final(s)@ == old(s)@ + opt_ra(n as nat, tag@, v, cur@),
{
    if let Some(a) = v {
        amount_ram(s, n, tag, a, cur);
    } else {
        assert(s@ =~= s@ + Seq::<char>::empty());
    }
}

/// A date element holding a format 102 date string.
fn date_102(s: &mut String, n: usize, tag: &str, d: Date)
    requires
        n < 100,
    ensures
        final(s)@ == old(s)@ + date102_text(n as nat, tag@, d),
{
    let ghost s0 = s@;
    open(s, n, tag);
    let t = d.to_102();
    leaf_udt(s, n + 1, "DateTimeString", t.as_str(), Some(("format", "102")));
    close(s, n, tag);
    assert(s@ =~= s0 + date102_text(n as nat, tag@, d));
}

/// A charge indicator.
fn indicator(s: &mut String, n: usize, charge: bool)
    requires
        n < 100,
    ensures
        final(s)@ == old(s)@ + indicator_text(n as nat, charge),
{
    let ghost s0 = s@;
    open(s, n, "ChargeIndicator");
    leaf_udt(s, n + 1, "Indicator", if charge { "true" } else { "false" }, None);
    close(s, n, "ChargeIndicator");
    assert(s@ =~= s0 + indicator_text(n as nat, charge));
}

/// An identifier with its `schemeID`.
fn write_ident(s: &mut String, n: usize, tag: &str, id: &Identifier)
    ensures
        final(s)@ == old(s)@ + ident_text(n as nat, tag@, *id),
{
    let attr = match &id.scheme {
        Some(sc) => Some(("schemeID", sc.as_str())),
        None => None,
    };
    leaf_ram(s, n, tag, id.value.as_str(), attr);
}

/// An identifier as `GlobalID` when it has a scheme, else as `ID`.
fn write_party_id(s: &mut String, n: usize, id: &Identifier)
    ensures
        final(s)@ == old(s)@ + party_id_text(n as nat, *id),
{
    if id.scheme.is_some() {
        write_ident(s, n, "GlobalID", id);
    } else {
        leaf_ram(s, n, "ID", id.value.as_str(), None);
    }
}

/// The basis quantity of a price, with its unit where the unit is not empty.
pub open spec fn basis_qty_text(n: nat, qty: Option<Quantity>, unit: Option<Code>) -> Seq<char> {
    match qty {
        Some(q) => rl(
            n,
            "BasisQuantity"@,
            decimal_text(q.dec()),
            match unit {
                Some(c) => if c@.len() > 0 { Some(("unitCode"@, c@)) } else { None },
                None => None,
            },
        ),
        None => Seq::empty(),
    }
}

/// The basis quantity of a price, with its unit when the unit is not empty.
fn write_basis_qty(s: &mut String, n: usize, qty: Option<Quantity>, unit: &Option<Code>)
    ensures
        final(s)@ == old(s)@ + basis_qty_text(n as nat, qty, *unit),
{
    if let Some(q) = qty {
        let attr = match unit {
            Some(c) => if has_chars(c.as_str()) {
                Some(("unitCode", c.as_str()))
            } else {
                None
            },
            None => None,
        };
        leaf_ram(s, n, "BasisQuantity", q.to_string().as_str(), attr);
    } else {
        assert(s@ =~= s@ + Seq::<char>::empty());
    }
}

/// A billing period with its start and end; nothing where both are absent.
pub open spec fn billing_period_text(n: nat, p: Period) -> Seq<char> {
    if p.start is None && p.end is None {
        Seq::empty()
    } else {
        ro(n, "BillingSpecifiedPeriod"@) + match p.start {
            Some(d) => date102_text(n + 1, "StartDateTime"@, d),
            None => Seq::empty(),
        } + match p.end {
            Some(d) => date102_text(n + 1, "EndDateTime"@, d),
            None => Seq::empty(),
        } + rc(n, "BillingSpecifiedPeriod"@)
    }
}

/// A billing period with its start and end; nothing when both are absent.
#[verifier::rlimit(40)]
fn write_billing_period(s: &mut String, n: usize, p: &Period)
    requires
        n < 90,
    ensures
        final(s)@ == old(s)@ + billing_period_text(n as nat, *p),
{
    let ghost s0 = s@;
    if p.start.is_none() && p.end.is_none() {
        assert(s@ =~= s0 + billing_period_text(n as nat, *p));
        return;
    }
    open(s, n, "BillingSpecifiedPeriod");
    let ghost s1 = s@;
    if let Some(d) = p.start {
        date_102(s, n + 1, "StartDateTime", d);
    }
    let ghost s2 = s@;
    if let Some(d) = p.end {
        date_102(s, n + 1, "EndDateTime", d);
    }
    let ghost s3 = s@;
    close(s, n, "BillingSpecifiedPeriod");
    assert(s@ =~= s0 + billing_period_text(n as nat, *p));
}

/// The text of a line-level allowance or charge.
#[verifier::opaque]
pub open spec fn line_ac_text(a: LineAllowanceCharge, charge: bool, cur: Seq<char>) -> Seq<char> {
    ro(4, "SpecifiedTradeAllowanceCharge"@) + indicator_text(5, charge) + match a.percent {
        Some(p) => rl(5, "CalculationPercent"@, normal_text(p.dec()), None),
        None => Seq::empty(),
    } + opt_ra(5, "BasisAmount"@, a.base, cur) + ra(5, "ActualAmount"@, a.amount.dec(), cur) + opt_rl(
        5,
        "ReasonCode"@,
        code_text(a.reason_code),
    ) + opt_rl(5, "Reason"@, opt_text(a.reason)) + rc(4, "SpecifiedTradeAllowanceCharge"@)
}

/// A line-level allowance or charge.
#[verifier::rlimit(40)]
fn write_line_ac(s: &mut String, a: &LineAllowanceCharge, charge: bool, cur: &str)
    ensures
        final(s)@ == old(s)@ + line_ac_text(*a, charge, cur@),
        grows(old(s)@, final(s)@),
{
    let ghost s0 = s@;
    open(s, 4, "SpecifiedTradeAllowanceCharge");
    indicator(s, 5, charge);
    let ghost s1 = s@;
    if let Some(p) = a.percent {
        leaf_ram(s, 5, "CalculationPercent", p.to_string().as_str(), None);
    }
    let ghost s2 = s@;
    opt_amount(s, 5, "BasisAmount", a.base, cur);
    amount_ram(s, 5, "ActualAmount", a.amount, cur);
    opt_code_leaf(s, 5, "ReasonCode", &a.reason_code);
    opt_leaf(s, 5, "Reason", &a.reason);
    close(s, 4, "SpecifiedTradeAllowanceCharge");
    proof {
        reveal(line_ac_text);
    }
    proof {
        assert(s@ =~= s0 + line_ac_text(*a, charge, cur@));
        lemma_grows_by(s0, line_ac_text(*a, charge, cur@));
    }
}

/// The product characteristics, in order.
pub open spec fn characteristics_text(attrs: Seq<ItemAttribute>) -> Seq<char>
    decreases attrs.len(),
{
    if attrs.len() == 0 {
        Seq::empty()
    } else {
        characteristics_text(attrs.drop_last()) + ro(4, "ApplicableProductCharacteristic"@) + rl(
            5,
            "Description"@,
            attrs.last().name@,
            None,
        ) + rl(5, "Value"@, attrs.last().value@, None) + rc(4, "ApplicableProductCharacteristic"@)
    }
}

/// The product classifications, in order, each with its `listID`.
pub open spec fn product_classes_text(cs: Seq<Identifier>) -> Seq<char>
    decreases cs.len(),
{
    if cs.len() == 0 {
        Seq::empty()
    } else {
        product_classes_text(cs.drop_last()) + ro(4, "DesignatedProductClassification"@) + rl(
            5,
            "ClassCode"@,
            cs.last().value@,
            match cs.last().scheme {
                Some(sc) => Some(("listID"@, sc@)),
                None => None,
            },
        ) + rc(4, "DesignatedProductClassification"@)
    }
}

/// An optional identifier with its `schemeID`.
pub open spec fn opt_ident_text(n: nat, tag: Seq<char>, id: Option<Identifier>) -> Seq<char> {
    match id {
        Some(i) => ident_text(n, tag, i),
        None => Seq::empty(),
    }
}

/// The first part of a product: identifications, name and description.
pub open spec fn product_head_text(line: Line) -> Seq<char> {
    opt_ident_text(4, "GlobalID"@, line.standard_id) + opt_ident_text(4, "SellerAssignedID"@, line.item_id) + opt_ident_text(
        4,
        "BuyerAssignedID"@,
        line.buyer_id,
    ) + rl(4, "Name"@, line.name@, None) + opt_rl(4, "Description"@, opt_text(line.description))
}

/// The text of a line's product: identifications, name, description,
/// characteristics, classifications and origin.
#[verifier::opaque]
pub open spec fn product_text(line: Line) -> Seq<char> {
    ro(3, "SpecifiedTradeProduct"@) + product_head_text(line) + characteristics_text(line.attributes@) + product_classes_text(
        line.classifications@,
    ) + match line.origin_country {
        Some(cc) => ro(4, "OriginTradeCountry"@) + rl(5, "ID"@, cc@, None) + rc(4, "OriginTradeCountry"@),
        None => Seq::empty(),
    } + rc(3, "SpecifiedTradeProduct"@)
}

fn write_opt_ident(s: &mut String, n: usize, tag: &str, id: &Option<Identifier>)
    ensures
        final(s)@ == old(s)@ + opt_ident_text(n as nat, tag@, *id),
{
    if let Some(i) = id {
        write_ident(s, n, tag, i);
    } else {
        assert(s@ =~= s@ + Seq::<char>::empty());
    }
}

#[verifier::rlimit(40)]
fn write_product_head(s: &mut String, line: &Line)
    ensures
        final(s)@ == old(s)@ + product_head_text(*line),
{
    let ghost s0 = s@;
    write_opt_ident(s, 4, "GlobalID", &line.standard_id);
    write_opt_ident(s, 4, "SellerAssignedID", &line.item_id);
    write_opt_ident(s, 4, "BuyerAssignedID", &line.buyer_id);
    leaf_ram(s, 4, "Name", line.name.as_str(), None);
    opt_leaf(s, 4, "Description", &line.description);
    assert(s@ =~= s0 + product_head_text(*line));
}

fn write_characteristics(s: &mut String, attrs: &Vec<ItemAttribute>)
    ensures
        final(s)@ == old(s)@ + characteristics_text(attrs@),
{
    let ghost start = s@;
    let mut i: usize = 0;
    assert(attrs@.take(0) =~= Seq::<ItemAttribute>::empty());
    assert(start =~= start + Seq::<char>::empty());
    while i < attrs.len()
        invariant
            i <= attrs.len(),
            s@ == start + characteristics_text(attrs@.take(i as int)),
        decreases attrs.len() - i,
    {
        let a = &attrs[i];
        open(s, 4, "ApplicableProductCharacteristic");
        leaf_ram(s, 5, "Description", a.name.as_str(), None);
        leaf_ram(s, 5, "Value", a.value.as_str(), None);
        close(s, 4, "ApplicableProductCharacteristic");
        proof {
            assert(attrs@.take(i + 1).drop_last() =~= attrs@.take(i as int));
            assert(s@ =~= start + characteristics_text(attrs@.take(i + 1)));
        }
        i = i + 1;
    }
    assert(attrs@.take(attrs.len() as int) =~= attrs@);
}

fn write_product_classes(s: &mut String, cs: &Vec<Identifier>)
    ensures
        final(s)@ == old(s)@ + product_classes_text(cs@),
{
    let ghost start = s@;
    let mut j: usize = 0;
    assert(cs@.take(0) =~= Seq::<Identifier>::empty());
    assert(start =~= start + Seq::<char>::empty());
    while j < cs.len()
        invariant
            j <= cs.len(),
            s@ == start + product_classes_text(cs@.take(j as int)),
        decreases cs.len() - j,
    {
        let c = &cs[j];
        let attr = match &c.scheme {
            Some(sc) => Some(("listID", sc.as_str())),
            None => None,
        };
        open(s, 4, "DesignatedProductClassification");
        leaf_ram(s, 5, "ClassCode", c.value.as_str(), attr);
        close(s, 4, "DesignatedProductClassification");
        proof {
            assert(cs@.take(j + 1).drop_last() =~= cs@.take(j as int));
            assert(s@ =~= start + product_classes_text(cs@.take(j + 1)));
        }
        j = j + 1;
    }
    assert(cs@.take(cs.len() as int) =~= cs@);
}

/// The product of a line: identifications, name, description,
/// characteristics, classifications and origin.
#[verifier::rlimit(40)]
fn write_product(s: &mut String, line: &Line)
    ensures
        final(s)@ == old(s)@ + product_text(*line),
        grows(old(s)@, final(s)@),
{
    let ghost s0 = s@;
    open(s, 3, "SpecifiedTradeProduct");
    write_product_head(s, line);
    write_characteristics(s, &line.attributes);
    write_product_classes(s, &line.classifications);
    let ghost s1 = s@;
    if let Some(cc) = &line.origin_country {
        open(s, 4, "OriginTradeCountry");
        leaf_ram(s, 5, "ID", cc.as_str(), None);
        close(s, 4, "OriginTradeCountry");
    }
    let ghost s2 = s@;
    close(s, 3, "SpecifiedTradeProduct");
    proof {
        reveal(product_text);
    }
    proof {
        assert(s@ =~= s0 + product_text(*line));
        lemma_grows_by(s0, product_text(*line));
    }
}

/// The gross price part of a line agreement.
pub open spec fn gross_price_text(price: Price, cur: Seq<char>) -> Seq<char> {
    match price.gross {
        Some(g) => ro(4, "GrossPriceProductTradePrice"@) + rl(5, "ChargeAmount"@, decimal_text(g.dec()), Some(("currencyID"@, cur)))
            + basis_qty_text(5, price.base_qty, price.base_unit) + match price.discount {
            Some(disc) => ro(5, "AppliedTradeAllowanceCharge"@) + indicator_text(6, false) + rl(
                6,
                "ActualAmount"@,
                decimal_text(disc.dec()),
                Some(("currencyID"@, cur)),
            ) + rc(5, "AppliedTradeAllowanceCharge"@),
            None => Seq::empty(),
        } + rc(4, "GrossPriceProductTradePrice"@),
        None => Seq::empty(),
    }
}

/// The price part of a line agreement: gross price with discount, net price.
pub open spec fn line_price_text(line: Line, cur: Seq<char>) -> Seq<char> {
    match line.price {
        Some(price) => gross_price_text(price, cur) + ro(4, "NetPriceProductTradePrice"@) + rl(
            5,
            "ChargeAmount"@,
            decimal_text(price.net.dec()),
            Some(("currencyID"@, cur)),
        ) + basis_qty_text(5, price.base_qty, price.base_unit) + rc(4, "NetPriceProductTradePrice"@),
        None => Seq::empty(),
    }
}

/// The text of a line agreement: order line, gross price with its
/// discount, net price.
#[verifier::opaque]
pub open spec fn line_agreement_text(line: Line, cur: Seq<char>) -> Seq<char> {
    ro(3, "SpecifiedLineTradeAgreement"@) + match line.order_line {
        Some(ol) => ro(4, "BuyerOrderReferencedDocument"@) + rl(5, "LineID"@, ol@, None) + rc(4, "BuyerOrderReferencedDocument"@),
        None => Seq::empty(),
    } + line_price_text(line, cur) + rc(3, "SpecifiedLineTradeAgreement"@)
}

#[verifier::rlimit(40)]
fn write_gross_price(s: &mut String, price: &Price, cur: &str)
    ensures
        final(s)@ == old(s)@ + gross_price_text(*price, cur@),
{
    let ghost s0 = s@;
    if let Some(g) = price.gross {
        open(s, 4, "GrossPriceProductTradePrice");
        leaf_ram(s, 5, "ChargeAmount", g.to_string().as_str(), Some(("currencyID", cur)));
        write_basis_qty(s, 5, price.base_qty, &price.base_unit);
        let ghost s1 = s@;
        if let Some(disc) = price.discount {
            open(s, 5, "AppliedTradeAllowanceCharge");
            indicator(s, 6, false);
            leaf_ram(s, 6, "ActualAmount", disc.to_string().as_str(), Some(("currencyID", cur)));
            close(s, 5, "AppliedTradeAllowanceCharge");
        }
        let ghost s2 = s@;
        close(s, 4, "GrossPriceProductTradePrice");
    }
    assert(s@ =~= s0 + gross_price_text(*price, cur@));
}

#[verifier::rlimit(40)]
fn write_line_price(s: &mut String, line: &Line, cur: &str)
    ensures
        final(s)@ == old(s)@ + line_price_text(*line, cur@),
{
    let ghost s0 = s@;
    if let Some(price) = &line.price {
        write_gross_price(s, price, cur);
        open(s, 4, "NetPriceProductTradePrice");
        leaf_ram(s, 5, "ChargeAmount", price.net.to_string().as_str(), Some(("currencyID", cur)));
        write_basis_qty(s, 5, price.base_qty, &price.base_unit);
        close(s, 4, "NetPriceProductTradePrice");
    }
    assert(s@ =~= s0 + line_price_text(*line, cur@));
}

/// The line agreement: order line, gross price with its discount, net price.
#[verifier::rlimit(40)]
fn write_line_agreement(s: &mut String, line: &Line, cur: &str)
    ensures
        final(s)@ == old(s)@ + line_agreement_text(*line, cur@),
        grows(old(s)@, final(s)@),
{
    let ghost s0 = s@;
    open(s, 3, "SpecifiedLineTradeAgreement");
    let ghost s1 = s@;
    if let Some(ol) = &line.order_line {
        open(s, 4, "BuyerOrderReferencedDocument");
        leaf_ram(s, 5, "LineID", ol.as_str(), None);
        close(s, 4, "BuyerOrderReferencedDocument");
    }
    let ghost s2 = s@;
    write_line_price(s, line, cur);
    close(s, 3, "SpecifiedLineTradeAgreement");
    proof {
        reveal(line_agreement_text);
    }
    proof {
        assert(s@ =~= s0 + line_agreement_text(*line, cur@));
        lemma_grows_by(s0, line_agreement_text(*line, cur@));
    }
}

/// Line allowances or charges, in order.
pub open spec fn line_acs_text(acs: Seq<LineAllowanceCharge>, charge: bool, cur: Seq<char>) -> Seq<char>
    decreases acs.len(),
{
    if acs.len() == 0 {
        Seq::empty()
    } else {
        line_acs_text(acs.drop_last(), charge, cur) + line_ac_text(acs.last(), charge, cur)
    }
}

/// The line tax part of a line settlement.
pub open spec fn line_tax_text(line: Line, profile: Profile) -> Seq<char> {
    ro(4, "ApplicableTradeTax"@) + rl(5, "TypeCode"@, wire_scheme_of(profile, line.tax.system, line.tax.code@), None) + rl(
        5,
        "CategoryCode"@,
        line.tax.code@,
        None,
    ) + match line.tax.percent {
        Some(p) => rl(5, "RateApplicablePercent"@, normal_text(p.dec()), None),
        None => Seq::empty(),
    } + rc(4, "ApplicableTradeTax"@)
}

/// The closing part of a line settlement: line total, invoiced object and
/// accounting reference.
pub open spec fn line_settlement_tail(line: Line, cur: Seq<char>) -> Seq<char> {
    ro(4, "SpecifiedTradeSettlementLineMonetarySummation"@) + ra(5, "LineTotalAmount"@, line.net.dec(), cur) + rc(
        4,
        "SpecifiedTradeSettlementLineMonetarySummation"@,
    ) + match line.invoiced_object {
        Some(obj) => ro(4, "AdditionalReferencedDocument"@) + rl(5, "IssuerAssignedID"@, obj.value@, None) + rl(
            5,
            "TypeCode"@,
            match line.invoiced_object_code {
                Some(c) => c@,
                None => "130"@,
            },
            None,
        ) + opt_rl(5, "ReferenceTypeCode"@, opt_text(obj.scheme)) + rc(4, "AdditionalReferencedDocument"@),
        None => Seq::empty(),
    } + match line.accounting_reference {
        Some(acc) => ro(4, "ReceivableSpecifiedTradeAccountingAccount"@) + rl(5, "ID"@, acc@, None) + rc(
            4,
            "ReceivableSpecifiedTradeAccountingAccount"@,
        ),
        None => Seq::empty(),
    }
}

/// The text of a line settlement: tax, period, allowances and charges, line
/// total, invoiced object and accounting reference.
#[verifier::opaque]
pub open spec fn line_settlement_text(line: Line, profile: Profile, cur: Seq<char>) -> Seq<char> {
    ro(3, "SpecifiedLineTradeSettlement"@) + line_tax_text(line, profile) + match line.period {
        Some(p) => billing_period_text(4, p),
        None => Seq::empty(),
    } + line_acs_text(line.allowances@, false, cur) + line_acs_text(line.charges@, true, cur) + line_settlement_tail(line, cur)
        + rc(3, "SpecifiedLineTradeSettlement"@)
}

#[verifier::rlimit(40)]
fn write_line_tax(s: &mut String, line: &Line, profile: Profile)
    ensures
        final(s)@ == old(s)@ + line_tax_text(*line, profile),
{
    let ghost s0 = s@;
    open(s, 4, "ApplicableTradeTax");
    leaf_ram(s, 5, "TypeCode", wire_scheme(profile, line.tax.system, line.tax.code.as_str()), None);
    leaf_ram(s, 5, "CategoryCode", line.tax.code.as_str(), None);
    let ghost s1 = s@;
    if let Some(p) = line.tax.percent {
        leaf_ram(s, 5, "RateApplicablePercent", p.to_string().as_str(), None);
    }
    let ghost s2 = s@;
    close(s, 4, "ApplicableTradeTax");
    assert(s@ =~= s0 + line_tax_text(*line, profile));
}

fn write_line_acs(s: &mut String, acs: &Vec<LineAllowanceCharge>, charge: bool, cur: &str)
    ensures
        final(s)@ == old(s)@ + line_acs_text(acs@, charge, cur@),
{
    let ghost start = s@;
    let mut i: usize = 0;
    assert(acs@.take(0) =~= Seq::<LineAllowanceCharge>::empty());
    assert(start =~= start + Seq::<char>::empty());
    while i < acs.len()
        invariant
            i <= acs.len(),
            s@ == start + line_acs_text(acs@.take(i as int), charge, cur@),
        decreases acs.len() - i,
    {
        write_line_ac(s, &acs[i], charge, cur);
        proof {
            assert(acs@.take(i + 1).drop_last() =~= acs@.take(i as int));
            lemma_app(start, line_acs_text(acs@.take(i as int), charge, cur@), line_ac_text(acs@[i as int], charge, cur@));
        }
        i = i + 1;
    }
    assert(acs@.take(acs.len() as int) =~= acs@);
}

#[verifier::rlimit(40)]
fn write_line_settlement_tail(s: &mut String, line: &Line, cur: &str)
    ensures
        final(s)@ == old(s)@ + line_settlement_tail(*line, cur@),
{
    let ghost s0 = s@;
    open(s, 4, "SpecifiedTradeSettlementLineMonetarySummation");
    amount_ram(s, 5, "LineTotalAmount", line.net, cur);
    close(s, 4, "SpecifiedTradeSettlementLineMonetarySummation");
    let ghost s1 = s@;
    if let Some(obj) = &line.invoiced_object {
        open(s, 4, "AdditionalReferencedDocument");
        leaf_ram(s, 5, "IssuerAssignedID", obj.value.as_str(), None);
        let tc = match &line.invoiced_object_code {
            Some(c) => c.as_str(),
            None => "130",
        };
        leaf_ram(s, 5, "TypeCode", tc, None);
        opt_leaf(s, 5, "ReferenceTypeCode", &obj.scheme);
        close(s, 4, "AdditionalReferencedDocument");
    }
    let ghost s2 = s@;
    if let Some(acc) = &line.accounting_reference {
        open(s, 4, "ReceivableSpecifiedTradeAccountingAccount");
        leaf_ram(s, 5, "ID", acc.as_str(), None);
        close(s, 4, "ReceivableSpecifiedTradeAccountingAccount");
    }
    assert(s@ =~= s0 + line_settlement_tail(*line, cur@));
}

/// The line settlement: tax, period, allowances and charges, line total,
/// invoiced object and accounting reference.
#[verifier::rlimit(40)]
fn write_line_settlement(s: &mut String, line: &Line, profile: Profile, cur: &str)
    ensures
        final(s)@ == old(s)@ + line_settlement_text(*line, profile, cur@),
        grows(old(s)@, final(s)@),
{
    let ghost s0 = s@;
    open(s, 3, "SpecifiedLineTradeSettlement");
    write_line_tax(s, line, profile);
    let ghost s1 = s@;
    if let Some(p) = &line.period {
        write_billing_period(s, 4, p);
    }
    let ghost s2 = s@;
    write_line_acs(s, &line.allowances, false, cur);
    write_line_acs(s, &line.charges, true, cur);
    write_line_settlement_tail(s, line, cur);
    close(s, 3, "SpecifiedLineTradeSettlement");
    proof {
        reveal(line_settlement_text);
        assert(s@ =~= s0 + line_settlement_text(*line, profile, cur@));
        lemma_grows_by(s0, line_settlement_text(*line, profile, cur@));
    }
}

/// The document line part of a line item: id and note.
pub open spec fn line_doc_text(line: Line) -> Seq<char> {
    ro(3, "AssociatedDocumentLineDocument"@) + rl(4, "LineID"@, line.id@, None) + match line.note {
        Some(note) => ro(4, "IncludedNote"@) + rl(5, "Content"@, note@, None) + rc(4, "IncludedNote"@),
        None => Seq::empty(),
    } + rc(3, "AssociatedDocumentLineDocument"@)
}

/// The delivery part of a line item: the billed quantity with its unit.
pub open spec fn line_delivery_text(line: Line) -> Seq<char> {
    ro(3, "SpecifiedLineTradeDelivery"@) + match line.quantity {
        Some(q) => rl(
            4,
            "BilledQuantity"@,
            decimal_text(q.dec()),
            match line.unit {
                Some(c) => Some(("unitCode"@, c@)),
                None => None,
            },
        ),
        None => Seq::empty(),
    } + rc(3, "SpecifiedLineTradeDelivery"@)
}

/// The text of a line item.
#[verifier::opaque]
pub open spec fn line_text(line: Line, profile: Profile, cur: Seq<char>) -> Seq<char> {
    ro(2, "IncludedSupplyChainTradeLineItem"@) + line_doc_text(line) + product_text(line) + line_agreement_text(line, cur)
        + line_delivery_text(line) + line_settlement_text(line, profile, cur) + rc(2, "IncludedSupplyChainTradeLineItem"@)
}

#[verifier::rlimit(40)]
fn write_line_doc(s: &mut String, line: &Line)
    ensures
        final(s)@ == old(s)@ + line_doc_text(*line),
{
    let ghost s0 = s@;
    open(s, 3, "AssociatedDocumentLineDocument");
    leaf_ram(s, 4, "LineID", line.id.as_str(), None);
    let ghost s1 = s@;
    if let Some(note) = &line.note {
        open(s, 4, "IncludedNote");
        leaf_ram(s, 5, "Content", note.as_str(), None);
        close(s, 4, "IncludedNote");
    }
    let ghost s2 = s@;
    close(s, 3, "AssociatedDocumentLineDocument");
    assert(s@ =~= s0 + line_doc_text(*line));
}

#[verifier::rlimit(40)]
fn write_line_delivery(s: &mut String, line: &Line)
    ensures
        final(s)@ == old(s)@ + line_delivery_text(*line),
{
    let ghost s0 = s@;
    open(s, 3, "SpecifiedLineTradeDelivery");
    let ghost s1 = s@;
    if let Some(q) = line.quantity {
        let unit = match &line.unit {
            Some(c) => Some(("unitCode", c.as_str())),
            None => None,
        };
        leaf_ram(s, 4, "BilledQuantity", q.to_string().as_str(), unit);
    }
    let ghost s2 = s@;
    close(s, 3, "SpecifiedLineTradeDelivery");
    assert(s@ =~= s0 + line_delivery_text(*line));
}

/// A line item.
#[verifier::rlimit(40)]
fn write_line(s: &mut String, line: &Line, profile: Profile, cur: &str)
    ensures
        final(s)@ == old(s)@ + line_text(*line, profile, cur@),
        grows(old(s)@, final(s)@),
{
    let ghost s0 = s@;
    open(s, 2, "IncludedSupplyChainTradeLineItem");
    write_line_doc(s, line);
    write_product(s, line);
    write_line_agreement(s, line, cur);
    write_line_delivery(s, line);
    write_line_settlement(s, line, profile, cur);
    close(s, 2, "IncludedSupplyChainTradeLineItem");
    proof {
        reveal(line_text);
        assert(s@ =~= s0 + line_text(*line, profile, cur@));
        lemma_grows_by(s0, line_text(*line, profile, cur@));
    }
}

/// A referenced document by its issuer-assigned id, where there is one.
pub open spec fn doc_ref_text(tag: Seq<char>, r: Option<DocumentReference>) -> Seq<char> {
    match r {
        Some(x) => ro(3, tag) + rl(4, "IssuerAssignedID"@, x.0@, None) + rc(3, tag),
        None => Seq::empty(),
    }
}

/// A referenced document by its issuer-assigned id.
#[verifier::rlimit(40)]
fn write_doc_ref(s: &mut String, tag: &str, r: &Option<DocumentReference>)
    ensures
        final(s)@ == old(s)@ + doc_ref_text(tag@, *r),
        grows(old(s)@, final(s)@),
{
    let ghost s0 = s@;
    if let Some(r) = r {
        open(s, 3, tag);
        leaf_ram(s, 4, "IssuerAssignedID", r.as_str(), None);
        close(s, 3, tag);
    }
    proof {
        assert(s@ =~= s0 + doc_ref_text(tag@, *r));
        lemma_grows_by(s0, doc_ref_text(tag@, *r));
    }
}

/// A supporting document as an additional referenced document.
pub open spec fn additional_doc_text(d: SupportingDocument, type_code: Seq<char>) -> Seq<char> {
    ro(3, "AdditionalReferencedDocument"@) + rl(4, "IssuerAssignedID"@, d.id.0@, None) + opt_rl(4, "URIID"@, opt_text(d.uri))
        + rl(4, "TypeCode"@, type_code, None) + opt_rl(4, "Name"@, opt_text(d.description)) + rc(
        3,
        "AdditionalReferencedDocument"@,
    )
}

/// A supporting document as an additional referenced document.
#[verifier::rlimit(40)]
fn write_additional_doc(s: &mut String, d: &SupportingDocument, type_code: &str)
    ensures
        final(s)@ == old(s)@ + additional_doc_text(*d, type_code@),
        grows(old(s)@, final(s)@),
{
    let ghost s0 = s@;
    open(s, 3, "AdditionalReferencedDocument");
    leaf_ram(s, 4, "IssuerAssignedID", d.id.as_str(), None);
    opt_leaf(s, 4, "URIID", &d.uri);
    leaf_ram(s, 4, "TypeCode", type_code, None);
    opt_leaf(s, 4, "Name", &d.description);
    close(s, 3, "AdditionalReferencedDocument");
    proof {
        assert(s@ =~= s0 + additional_doc_text(*d, type_code@));
        lemma_grows_by(s0, additional_doc_text(*d, type_code@));
    }
}

/// The text of a postal address.
#[verifier::opaque]
pub open spec fn postal_text(n: nat, addr: PostalAddress) -> Seq<char> {
    ro(n, "PostalTradeAddress"@) + opt_rl(n + 1, "PostcodeCode"@, opt_text(addr.post_code)) + opt_rl(
        n + 1,
        "LineOne"@,
        opt_text(addr.line1),
    ) + opt_rl(n + 1, "LineTwo"@, opt_text(addr.line2)) + opt_rl(n + 1, "LineThree"@, opt_text(addr.line3)) + opt_rl(
        n + 1,
        "CityName"@,
        opt_text(addr.city),
    ) + opt_rl(n + 1, "CountryID"@, code_text(addr.country)) + opt_rl(
        n + 1,
        "CountrySubDivisionName"@,
        opt_text(addr.subdivision),
    ) + rc(n, "PostalTradeAddress"@)
}

/// A postal address.
#[verifier::rlimit(40)]
fn write_postal(s: &mut String, n: usize, addr: &PostalAddress)
    requires
        n < 100,
    ensures
        final(s)@ == old(s)@ + postal_text(n as nat, *addr),
        grows(old(s)@, final(s)@),
{
    let ghost s0 = s@;
    open(s, n, "PostalTradeAddress");
    opt_leaf(s, n + 1, "PostcodeCode", &addr.post_code);
    opt_leaf(s, n + 1, "LineOne", &addr.line1);
    opt_leaf(s, n + 1, "LineTwo", &addr.line2);
    opt_leaf(s, n + 1, "LineThree", &addr.line3);
    opt_leaf(s, n + 1, "CityName", &addr.city);
    opt_code_leaf(s, n + 1, "CountryID", &addr.country);
    opt_leaf(s, n + 1, "CountrySubDivisionName", &addr.subdivision);
    close(s, n, "PostalTradeAddress");
    proof {
        reveal(postal_text);
        assert(s@ =~= s0 + postal_text(n as nat, *addr));
        lemma_grows_by(s0, postal_text(n as nat, *addr));
    }
}

/// The text of a party's contact: person, telephone and e-mail; nothing
/// where there is no contact.
#[verifier::opaque]
pub open spec fn contact_text(party: Party) -> Seq<char> {
    match party.contact {
        Some(c) => ro(4, "DefinedTradeContact"@) + opt_rl(5, "PersonName"@, opt_text(c.point)) + match c.phone {
            Some(ph) => ro(5, "TelephoneUniversalCommunication"@) + rl(6, "CompleteNumber"@, ph@, None) + rc(
                5,
                "TelephoneUniversalCommunication"@,
            ),
            None => Seq::empty(),
        } + match c.email {
            Some(em) => ro(5, "EmailURIUniversalCommunication"@) + rl(6, "URIID"@, em@, None) + rc(
                5,
                "EmailURIUniversalCommunication"@,
            ),
            None => Seq::empty(),
        } + rc(4, "DefinedTradeContact"@),
        None => Seq::empty(),
    }
}

/// A contact: person, telephone and e-mail.
#[verifier::rlimit(40)]
fn write_contact(s: &mut String, party: &Party)
    ensures
        final(s)@ == old(s)@ + contact_text(*party),
        grows(old(s)@, final(s)@),
{
    let ghost s0 = s@;
    if let Some(c) = &party.contact {
        open(s, 4, "DefinedTradeContact");
        opt_leaf(s, 5, "PersonName", &c.point);
        let ghost s1 = s@;
        if let Some(ph) = &c.phone {
            open(s, 5, "TelephoneUniversalCommunication");
            leaf_ram(s, 6, "CompleteNumber", ph.as_str(), None);
            close(s, 5, "TelephoneUniversalCommunication");
        }
        let ghost s2 = s@;
        if let Some(em) = &c.email {
            open(s, 5, "EmailURIUniversalCommunication");
            leaf_ram(s, 6, "URIID", em.as_str(), None);
            close(s, 5, "EmailURIUniversalCommunication");
        }
        let ghost s3 = s@;
        close(s, 4, "DefinedTradeContact");
    }
    proof {
        reveal(contact_text);
        assert(s@ =~= s0 + contact_text(*party));
        lemma_grows_by(s0, contact_text(*party));
    }
}

/// The party identifiers, in order.
pub open spec fn party_ids_text(ids: Seq<Identifier>) -> Seq<char>
    decreases ids.len(),
{
    if ids.len() == 0 {
        Seq::empty()
    } else {
        party_ids_text(ids.drop_last()) + party_id_text(4, ids.last())
    }
}

/// Name, seller description and legal organization of a trade party.
pub open spec fn trade_party_a(party: Party, seller: bool) -> Seq<char> {
    rl(4, "Name"@, party.name@, None) + when(seller, opt_rl(4, "Description"@, opt_text(party.additional_legal))) + when(
        party.legal_registration is Some || party.trading_name is Some,
        ro(4, "SpecifiedLegalOrganization"@) + match party.legal_registration {
            Some(l) => ident_text(5, "ID"@, l),
            None => Seq::empty(),
        } + opt_rl(5, "TradingBusinessName"@, opt_text(party.trading_name)) + rc(4, "SpecifiedLegalOrganization"@),
    )
}

/// Address of a trade party: the postal address, else a non-empty country.
pub open spec fn trade_party_address(party: Party) -> Seq<char> {
    match party.address {
        Some(addr) => postal_text(4, addr),
        None => when(
            party_country(party).len() > 0,
            ro(4, "PostalTradeAddress"@) + rl(5, "CountryID"@, party_country(party), None) + rc(4, "PostalTradeAddress"@),
        ),
    }
}

/// Endpoint and tax registrations of a trade party: the VAT identifier with
/// scheme `VA`, the tax registration with its scheme or `FC`.
pub open spec fn trade_party_b(party: Party) -> Seq<char> {
    (match party.electronic_address {
        Some(ep) => ro(4, "URIUniversalCommunication"@) + ident_text(5, "URIID"@, ep) + rc(4, "URIUniversalCommunication"@),
        None => Seq::empty(),
    }) + match party.vat_identifier {
        Some(vat) => ro(4, "SpecifiedTaxRegistration"@) + rl(5, "ID"@, vat.value@, Some(("schemeID"@, "VA"@))) + rc(
            4,
            "SpecifiedTaxRegistration"@,
        ),
        None => Seq::empty(),
    } + match party.tax_registration {
        Some(tin) => ro(4, "SpecifiedTaxRegistration"@) + rl(
            5,
            "ID"@,
            tin.value@,
            Some(
                (
                    "schemeID"@,
                    match tin.scheme {
                        Some(sc) => sc@,
                        None => "FC"@,
                    },
                ),
            ),
        ) + rc(4, "SpecifiedTaxRegistration"@),
        None => Seq::empty(),
    }
}

/// The text of a seller or buyer trade party.
#[verifier::opaque]
pub open spec fn trade_party_text(tag: Seq<char>, party: Party, seller: bool) -> Seq<char> {
    ro(3, tag) + party_ids_text(party.identifiers@) + trade_party_a(party, seller) + contact_text(party) + trade_party_address(
        party,
    ) + trade_party_b(party) + rc(3, tag)
}

fn write_party_ids(s: &mut String, party: &Party)
    ensures
        final(s)@ == old(s)@ + party_ids_text(party.identifiers@),
{
    let ghost start = s@;
    let ghost ids = party.identifiers@;
    let mut i: usize = 0;
    assert(ids.take(0) =~= Seq::<Identifier>::empty());
    assert(start =~= start + Seq::<char>::empty());
    while i < party.identifiers.len()
        invariant
            i <= party.identifiers.len(),
            ids == party.identifiers@,
            s@ == start + party_ids_text(ids.take(i as int)),
        decreases party.identifiers.len() - i,
    {
        write_party_id(s, 4, &party.identifiers[i]);
        proof {
            assert(ids.take(i + 1).drop_last() =~= ids.take(i as int));
            lemma_app(start, party_ids_text(ids.take(i as int)), party_id_text(4, ids[i as int]));
        }
        i = i + 1;
    }
    assert(ids.take(ids.len() as int) =~= ids);
}

#[verifier::rlimit(40)]
fn write_trade_party_a(s: &mut String, party: &Party, seller: bool)
    ensures
        final(s)@ == old(s)@ + trade_party_a(*party, seller),
{
    let ghost s0 = s@;
    leaf_ram(s, 4, "Name", party.name.as_str(), None);
    let ghost s1 = s@;
    if seller {
        opt_leaf(s, 4, "Description", &party.additional_legal);
    }
    let ghost s2 = s@;
    if party.legal_registration.is_some() || party.trading_name.is_some() {
        open(s, 4, "SpecifiedLegalOrganization");
        let ghost s3 = s@;
        if let Some(legal) = &party.legal_registration {
            write_ident(s, 5, "ID", legal);
        }
        let ghost s4 = s@;
        opt_leaf(s, 5, "TradingBusinessName", &party.trading_name);
        close(s, 4, "SpecifiedLegalOrganization");
    }
    assert(s@ =~= s0 + trade_party_a(*party, seller));
}

#[verifier::rlimit(40)]
fn write_trade_party_address(s: &mut String, party: &Party)
    ensures
        final(s)@ == old(s)@ + trade_party_address(*party),
{
    let ghost s0 = s@;
    if let Some(addr) = &party.address {
        write_postal(s, 4, addr);
    } else if has_chars(party.country()) {
        open(s, 4, "PostalTradeAddress");
        leaf_ram(s, 5, "CountryID", party.country(), None);
        close(s, 4, "PostalTradeAddress");
    }
    assert(s@ =~= s0 + trade_party_address(*party));
}

#[verifier::rlimit(40)]
fn write_trade_party_b(s: &mut String, party: &Party)
    ensures
        final(s)@ == old(s)@ + trade_party_b(*party),
{
    let ghost s0 = s@;
    if let Some(ep) = &party.electronic_address {
        open(s, 4, "URIUniversalCommunication");
        write_ident(s, 5, "URIID", ep);
        close(s, 4, "URIUniversalCommunication");
    }
    let ghost s1 = s@;
    if let Some(vat) = &party.vat_identifier {
        open(s, 4, "SpecifiedTaxRegistration");
        leaf_ram(s, 5, "ID", vat.value.as_str(), Some(("schemeID", "VA")));
        close(s, 4, "SpecifiedTaxRegistration");
    }
    let ghost s2 = s@;
    if let Some(tin) = &party.tax_registration {
        let scheme = match &tin.scheme {
            Some(sc) => sc.as_str(),
            None => "FC",
        };
        open(s, 4, "SpecifiedTaxRegistration");
        leaf_ram(s, 5, "ID", tin.value.as_str(), Some(("schemeID", scheme)));
        close(s, 4, "SpecifiedTaxRegistration");
    }
    assert(s@ =~= s0 + trade_party_b(*party));
}

/// A seller or buyer trade party.
#[verifier::rlimit(40)]
fn write_trade_party(s: &mut String, tag: &str, party: &Party, seller: bool)
    ensures
        final(s)@ == old(s)@ + trade_party_text(tag@, *party, seller),
        grows(old(s)@, final(s)@),
{
    let ghost s0 = s@;
    open(s, 3, tag);
    write_party_ids(s, party);
    write_trade_party_a(s, party, seller);
    write_contact(s, party);
    write_trade_party_address(s, party);
    write_trade_party_b(s, party);
    close(s, 3, tag);
    proof {
        reveal(trade_party_text);
        assert(s@ =~= s0 + trade_party_text(tag@, *party, seller));
        lemma_grows_by(s0, trade_party_text(tag@, *party, seller));
    }
}

/// The text of the seller's tax representative; nothing where there is none.
#[verifier::opaque]
pub open spec fn tax_rep_text(tr: Option<TaxRepresentative>) -> Seq<char> {
    match tr {
        Some(t) => ro(3, "SellerTaxRepresentativeTradeParty"@) + when(t.name@.len() > 0, rl(4, "Name"@, t.name@, None))
            + match t.address {
            Some(addr) => postal_text(4, addr),
            None => Seq::empty(),
        } + match t.vat_identifier {
            Some(vat) => ro(4, "SpecifiedTaxRegistration"@) + rl(5, "ID"@, vat.value@, Some(("schemeID"@, "VA"@))) + rc(
                4,
                "SpecifiedTaxRegistration"@,
            ),
            None => Seq::empty(),
        } + rc(3, "SellerTaxRepresentativeTradeParty"@),
        None => Seq::empty(),
    }
}

/// The seller's tax representative.
#[verifier::rlimit(40)]
fn write_tax_rep(s: &mut String, tr: &Option<TaxRepresentative>)
    ensures
        final(s)@ == old(s)@ + tax_rep_text(*tr),
        grows(old(s)@, final(s)@),
{
    let ghost s0 = s@;
    if let Some(tr) = tr {
        open(s, 3, "SellerTaxRepresentativeTradeParty");
        let ghost s1 = s@;
        if has_chars(tr.name.as_str()) {
            leaf_ram(s, 4, "Name", tr.name.as_str(), None);
        }
        let ghost s2 = s@;
        if let Some(addr) = &tr.address {
            write_postal(s, 4, addr);
        }
        let ghost s3 = s@;
        if let Some(vat) = &tr.vat_identifier {
            open(s, 4, "SpecifiedTaxRegistration");
            leaf_ram(s, 5, "ID", vat.value.as_str(), Some(("schemeID", "VA")));
            close(s, 4, "SpecifiedTaxRegistration");
        }
        let ghost s4 = s@;
        close(s, 3, "SellerTaxRepresentativeTradeParty");
    }
    proof {
        reveal(tax_rep_text);
        assert(s@ =~= s0 + tax_rep_text(*tr));
        lemma_grows_by(s0, tax_rep_text(*tr));
    }
}

/// The text of the payee trade party; nothing where there is none.
pub open spec fn payee_text(payee: Option<Payee>) -> Seq<char> {
    match payee {
        Some(p) => ro(3, "PayeeTradeParty"@) + match p.identifier {
            Some(id) => party_id_text(4, id),
            None => Seq::empty(),
        } + when(p.name@.len() > 0, rl(4, "Name"@, p.name@, None)) + match p.legal_registration {
            Some(legal) => ro(4, "SpecifiedLegalOrganization"@) + ident_text(5, "ID"@, legal) + rc(4, "SpecifiedLegalOrganization"@),
            None => Seq::empty(),
        } + rc(3, "PayeeTradeParty"@),
        None => Seq::empty(),
    }
}

/// The payee trade party.
#[verifier::rlimit(40)]
fn write_payee(s: &mut String, payee: &Option<Payee>)
    ensures
        final(s)@ == old(s)@ + payee_text(*payee),
        grows(old(s)@, final(s)@),
{
    let ghost s0 = s@;
    if let Some(p) = payee {
        open(s, 3, "PayeeTradeParty");
        let ghost s1 = s@;
        if let Some(id) = &p.identifier {
            write_party_id(s, 4, id);
        }
        let ghost s2 = s@;
        if has_chars(p.name.as_str()) {
            leaf_ram(s, 4, "Name", p.name.as_str(), None);
        }
        let ghost s3 = s@;
        if let Some(legal) = &p.legal_registration {
            open(s, 4, "SpecifiedLegalOrganization");
            write_ident(s, 5, "ID", legal);
            close(s, 4, "SpecifiedLegalOrganization");
        }
        let ghost s4 = s@;
        close(s, 3, "PayeeTradeParty");
    }
    proof {
        assert(s@ =~= s0 + payee_text(*payee));
        lemma_grows_by(s0, payee_text(*payee));
    }
}

/// The text of the payment terms: description and due date; nothing where
/// there is neither.
pub open spec fn payment_terms_text(invoice: Invoice) -> Seq<char> {
    if invoice.due_date is None && invoice.payment_terms is None {
        Seq::empty()
    } else {
        ro(3, "SpecifiedTradePaymentTerms"@) + opt_rl(4, "Description"@, opt_text(invoice.payment_terms)) + match invoice.due_date {
            Some(d) => date102_text(4, "DueDateDateTime"@, d),
            None => Seq::empty(),
        } + rc(3, "SpecifiedTradePaymentTerms"@)
    }
}

/// Payment terms: description and due date.
#[verifier::rlimit(40)]
fn write_payment_terms(s: &mut String, invoice: &Invoice)
    ensures
        final(s)@ == old(s)@ + payment_terms_text(*invoice),
        grows(old(s)@, final(s)@),
{
    let ghost s0 = s@;
    if invoice.due_date.is_none() && invoice.payment_terms.is_none() {
        assert(s@ =~= s0 + payment_terms_text(*invoice));
        proof {
            lemma_grows_by(s0, payment_terms_text(*invoice));
        }
        return;
    }
    open(s, 3, "SpecifiedTradePaymentTerms");
    opt_leaf(s, 4, "Description", &invoice.payment_terms);
    let ghost s1 = s@;
    if let Some(d) = invoice.due_date {
        date_102(s, 4, "DueDateDateTime", d);
    }
    let ghost s2 = s@;
    close(s, 3, "SpecifiedTradePaymentTerms");
    proof {
        assert(s@ =~= s0 + payment_terms_text(*invoice));
        lemma_grows_by(s0, payment_terms_text(*invoice));
    }
}

/// The preceding invoice references, in order.
pub open spec fn preceding_text(ps: Seq<PrecedingInvoice>) -> Seq<char>
    decreases ps.len(),
{
    if ps.len() == 0 {
        Seq::empty()
    } else {
        preceding_text(ps.drop_last()) + ro(3, "InvoiceReferencedDocument"@) + rl(
            4,
            "IssuerAssignedID"@,
            ps.last().reference.0@,
            None,
        ) + rc(3, "InvoiceReferencedDocument"@)
    }
}

/// Preceding invoice references.
#[verifier::rlimit(40)]
fn write_preceding(s: &mut String, invoice: &Invoice)
    ensures
        final(s)@ == old(s)@ + preceding_text(invoice.preceding@),
        grows(old(s)@, final(s)@),
{
    let ghost s0 = s@;
    let ghost ps = invoice.preceding@;
    let mut i: usize = 0;
    assert(ps.take(0) =~= Seq::<PrecedingInvoice>::empty());
    assert(s0 =~= s0 + Seq::<char>::empty());
    while i < invoice.preceding.len()
        invariant
            i <= invoice.preceding.len(),
            ps == invoice.preceding@,
            s@ == s0 + preceding_text(ps.take(i as int)),
        decreases invoice.preceding.len() - i,
    {
        open(s, 3, "InvoiceReferencedDocument");
        leaf_ram(s, 4, "IssuerAssignedID", invoice.preceding[i].reference.as_str(), None);
        close(s, 3, "InvoiceReferencedDocument");
        proof {
            assert(ps.take(i + 1).drop_last() =~= ps.take(i as int));
            assert(s@ =~= s0 + preceding_text(ps.take(i + 1)));
        }
        i = i + 1;
    }
    assert(ps.take(ps.len() as int) =~= ps);
    proof {
        assert(s@ =~= s0 + preceding_text(invoice.preceding@));
        lemma_grows_by(s0, preceding_text(invoice.preceding@));
    }
}

/// The header delivery has a ship-to party.
pub open spec fn has_ship_to(invoice: Invoice) -> bool {
    match invoice.delivery {
        Some(d) => d.address is Some || d.name is Some || d.location_id is Some,
        None => false,
    }
}

/// The actual delivery date.
pub open spec fn delivery_date(invoice: Invoice) -> Option<Date> {
    match invoice.delivery {
        Some(d) => d.date,
        None => None,
    }
}

/// The ship-to party of the header delivery.
pub open spec fn ship_to_text(invoice: Invoice) -> Seq<char> {
    match invoice.delivery {
        Some(d) => when(
            has_ship_to(invoice),
            ro(3, "ShipToTradeParty"@) + match d.location_id {
                Some(id) => party_id_text(4, id),
                None => Seq::empty(),
            } + opt_rl(4, "Name"@, opt_text(d.name)) + match d.address {
                Some(addr) => postal_text(4, addr),
                None => Seq::empty(),
            } + rc(3, "ShipToTradeParty"@),
        ),
        None => Seq::empty(),
    }
}

/// The text of the header delivery: ship-to party, actual delivery date,
/// despatch and receiving advice; an empty element where there is none.
#[verifier::opaque]
pub open spec fn delivery_text(invoice: Invoice) -> Seq<char> {
    if !has_ship_to(invoice) && delivery_date(invoice) is None && invoice.despatch is None && invoice.receiving_advice is None {
        "    <ram:ApplicableHeaderTradeDelivery/>\n"@
    } else {
        ro(2, "ApplicableHeaderTradeDelivery"@) + ship_to_text(invoice) + match delivery_date(invoice) {
            Some(date) => ro(3, "ActualDeliverySupplyChainEvent"@) + date102_text(4, "OccurrenceDateTime"@, date) + rc(
                3,
                "ActualDeliverySupplyChainEvent"@,
            ),
            None => Seq::empty(),
        } + doc_ref_text("DespatchAdviceReferencedDocument"@, invoice.despatch) + doc_ref_text(
            "ReceivingAdviceReferencedDocument"@,
            invoice.receiving_advice,
        ) + rc(2, "ApplicableHeaderTradeDelivery"@)
    }
}

#[verifier::rlimit(40)]
fn write_ship_to(s: &mut String, invoice: &Invoice, has_party: bool)
    requires
        has_party == has_ship_to(*invoice),
    ensures
        final(s)@ == old(s)@ + ship_to_text(*invoice),
{
    let ghost s0 = s@;
    if let Some(d) = &invoice.delivery {
        if has_party {
            open(s, 3, "ShipToTradeParty");
            let ghost s1 = s@;
            if let Some(id) = &d.location_id {
                write_party_id(s, 4, id);
            }
            let ghost s2 = s@;
            opt_leaf(s, 4, "Name", &d.name);
            let ghost s3 = s@;
            if let Some(addr) = &d.address {
                write_postal(s, 4, addr);
            }
            let ghost s4 = s@;
            close(s, 3, "ShipToTradeParty");
        }
    }
    assert(s@ =~= s0 + ship_to_text(*invoice));
}

/// The header delivery: ship-to party, actual delivery date, despatch and
/// receiving advice; an empty element when there is none of these.
#[verifier::rlimit(40)]
fn write_delivery(s: &mut String, invoice: &Invoice)
    ensures
        final(s)@ == old(s)@ + delivery_text(*invoice),
        grows(old(s)@, final(s)@),
{
    let ghost s0 = s@;
    proof {
        reveal(delivery_text);
    }
    let has_party = match &invoice.delivery {
        Some(d) => d.address.is_some() || d.name.is_some() || d.location_id.is_some(),
        None => false,
    };
    let date: Option<Date> = match &invoice.delivery {
        Some(d) => d.date,
        None => None,
    };
    if !has_party && date.is_none() && invoice.despatch.is_none() && invoice.receiving_advice.is_none() {
        s.append("    <ram:ApplicableHeaderTradeDelivery/>\n");
        proof {
            lemma_grows_by(s0, delivery_text(*invoice));
        }
        return;
    }
    open(s, 2, "ApplicableHeaderTradeDelivery");
    write_ship_to(s, invoice, has_party);
    let ghost s1 = s@;
    if let Some(date) = date {
        open(s, 3, "ActualDeliverySupplyChainEvent");
        date_102(s, 4, "OccurrenceDateTime", date);
        close(s, 3, "ActualDeliverySupplyChainEvent");
    }
    let ghost s2 = s@;
    write_doc_ref(s, "DespatchAdviceReferencedDocument", &invoice.despatch);
    write_doc_ref(s, "ReceivingAdviceReferencedDocument", &invoice.receiving_advice);
    close(s, 2, "ApplicableHeaderTradeDelivery");
    proof {
        assert(s@ =~= s0 + delivery_text(*invoice));
        lemma_grows_by(s0, delivery_text(*invoice));
    }
}

/// One payment means element for a credit transfer account.
pub open spec fn ct_means_text(pay: PaymentInstructions, ct: CreditTransfer) -> Seq<char> {
    ro(3, "SpecifiedTradeSettlementPaymentMeans"@) + opt_rl(4, "TypeCode"@, code_text(pay.means_code)) + opt_rl(
        4,
        "Information"@,
        opt_text(pay.means_text),
    ) + ro(4, "PayeePartyCreditorFinancialAccount"@) + rl(5, "IBANID"@, ct.account_id.value@, None) + opt_rl(
        5,
        "AccountName"@,
        opt_text(ct.account_name),
    ) + rc(4, "PayeePartyCreditorFinancialAccount"@) + rc(3, "SpecifiedTradeSettlementPaymentMeans"@)
}

/// The payment means elements of the credit transfer accounts, in order.
pub open spec fn cts_text(pay: PaymentInstructions, cts: Seq<CreditTransfer>) -> Seq<char>
    decreases cts.len(),
{
    if cts.len() == 0 {
        Seq::empty()
    } else {
        cts_text(pay, cts.drop_last()) + ct_means_text(pay, cts.last())
    }
}

/// The text of the payment means: one per credit transfer account, else
/// one with the code; nothing without payment instructions.
#[verifier::opaque]
pub open spec fn payment_text(invoice: Invoice) -> Seq<char> {
    match invoice.payment {
        Some(pay) => match pay.means {
            Some(PaymentMeans::CreditTransfer(cts)) if cts@.len() > 0 => cts_text(pay, cts@),
            _ => ro(3, "SpecifiedTradeSettlementPaymentMeans"@) + opt_rl(4, "TypeCode"@, code_text(pay.means_code)) + rc(
                3,
                "SpecifiedTradeSettlementPaymentMeans"@,
            ),
        },
        None => Seq::empty(),
    }
}

#[verifier::rlimit(40)]
fn write_ct_means(s: &mut String, pay: &PaymentInstructions, ct: &CreditTransfer)
    ensures
        final(s)@ == old(s)@ + ct_means_text(*pay, *ct),
{
    let ghost s0 = s@;
    open(s, 3, "SpecifiedTradeSettlementPaymentMeans");
    opt_code_leaf(s, 4, "TypeCode", &pay.means_code);
    opt_leaf(s, 4, "Information", &pay.means_text);
    open(s, 4, "PayeePartyCreditorFinancialAccount");
    leaf_ram(s, 5, "IBANID", ct.account_id.value.as_str(), None);
    opt_leaf(s, 5, "AccountName", &ct.account_name);
    close(s, 4, "PayeePartyCreditorFinancialAccount");
    close(s, 3, "SpecifiedTradeSettlementPaymentMeans");
    assert(s@ =~= s0 + ct_means_text(*pay, *ct));
}

/// Payment means: one per credit transfer account, else one with the code.
#[verifier::rlimit(40)]
fn write_payment(s: &mut String, invoice: &Invoice)
    ensures
        final(s)@ == old(s)@ + payment_text(*invoice),
        grows(old(s)@, final(s)@),
{
    let ghost s0 = s@;
    proof {
        reveal(payment_text);
    }
    let pay = match &invoice.payment {
        Some(p) => p,
        None => {
            assert(s@ =~= s0 + payment_text(*invoice));
            proof {
                lemma_grows_by(s0, payment_text(*invoice));
            }
            return;
        },
    };
    if let Some(PaymentMeans::CreditTransfer(cts)) = &pay.means {
        if cts.len() > 0 {
            let ghost c = cts@;
            let mut i: usize = 0;
            assert(c.take(0) =~= Seq::<CreditTransfer>::empty());
            assert(s0 =~= s0 + Seq::<char>::empty());
            while i < cts.len()
                invariant
                    i <= cts.len(),
                    c == cts@,
                    s@ == s0 + cts_text(*pay, c.take(i as int)),
                decreases cts.len() - i,
            {
                write_ct_means(s, pay, &cts[i]);
                proof {
                    assert(c.take(i + 1).drop_last() =~= c.take(i as int));
                    lemma_app(s0, cts_text(*pay, c.take(i as int)), ct_means_text(*pay, c[i as int]));
                }
                i = i + 1;
            }
            assert(c.take(c.len() as int) =~= c);
            proof {
                lemma_grows_by(s0, payment_text(*invoice));
            }
            return;
        }
    }
    open(s, 3, "SpecifiedTradeSettlementPaymentMeans");
    opt_code_leaf(s, 4, "TypeCode", &pay.means_code);
    close(s, 3, "SpecifiedTradeSettlementPaymentMeans");
    proof {
        assert(s@ =~= s0 + payment_text(*invoice));
        lemma_grows_by(s0, payment_text(*invoice));
    }
}

/// The text of a document-level allowance or charge.
pub open spec fn cii_ac_text(a: AllowanceCharge, charge: bool, cur: Seq<char>) -> Seq<char> {
    ro(3, "SpecifiedTradeAllowanceCharge"@) + indicator_text(4, charge) + ra(4, "ActualAmount"@, a.amount.dec(), cur) + opt_rl(
        4,
        "Reason"@,
        opt_text(a.reason),
    ) + rc(3, "SpecifiedTradeAllowanceCharge"@)
}

/// A document-level allowance or charge.
#[verifier::rlimit(40)]
fn write_cii_ac(s: &mut String, a: &AllowanceCharge, charge: bool, cur: &str)
    ensures
        final(s)@ == old(s)@ + cii_ac_text(*a, charge, cur@),
        grows(old(s)@, final(s)@),
{
    let ghost s0 = s@;
    open(s, 3, "SpecifiedTradeAllowanceCharge");
    indicator(s, 4, charge);
    amount_ram(s, 4, "ActualAmount", a.amount, cur);
    opt_leaf(s, 4, "Reason", &a.reason);
    close(s, 3, "SpecifiedTradeAllowanceCharge");
    proof {
        assert(s@ =~= s0 + cii_ac_text(*a, charge, cur@));
        lemma_grows_by(s0, cii_ac_text(*a, charge, cur@));
    }
}

/// Document allowances or charges, in order.
pub open spec fn cii_acs_text(acs: Seq<AllowanceCharge>, charge: bool, cur: Seq<char>) -> Seq<char>
    decreases acs.len(),
{
    if acs.len() == 0 {
        Seq::empty()
    } else {
        cii_acs_text(acs.drop_last(), charge, cur) + cii_ac_text(acs.last(), charge, cur)
    }
}

/// The text of the document allowances, then the document charges.
#[verifier::opaque]
pub open spec fn doc_ac_text(invoice: Invoice) -> Seq<char> {
    cii_acs_text(invoice.document_allowances@, false, invoice.currency@) + cii_acs_text(
        invoice.document_charges@,
        true,
        invoice.currency@,
    )
}

fn write_cii_acs(s: &mut String, acs: &Vec<AllowanceCharge>, charge: bool, cur: &str)
    ensures
        final(s)@ == old(s)@ + cii_acs_text(acs@, charge, cur@),
{
    let ghost start = s@;
    let mut i: usize = 0;
    assert(acs@.take(0) =~= Seq::<AllowanceCharge>::empty());
    assert(start =~= start + Seq::<char>::empty());
    while i < acs.len()
        invariant
            i <= acs.len(),
            s@ == start + cii_acs_text(acs@.take(i as int), charge, cur@),
        decreases acs.len() - i,
    {
        write_cii_ac(s, &acs[i], charge, cur);
        proof {
            assert(acs@.take(i + 1).drop_last() =~= acs@.take(i as int));
            lemma_app(start, cii_acs_text(acs@.take(i as int), charge, cur@), cii_ac_text(acs@[i as int], charge, cur@));
        }
        i = i + 1;
    }
    assert(acs@.take(acs.len() as int) =~= acs@);
}

/// Document allowances, then document charges.
#[verifier::rlimit(40)]
fn write_doc_ac(s: &mut String, invoice: &Invoice)
    ensures
        final(s)@ == old(s)@ + doc_ac_text(*invoice),
        grows(old(s)@, final(s)@),
{
    let ghost s0 = s@;
    let cur = invoice.currency.as_str();
    write_cii_acs(s, &invoice.document_allowances, false, cur);
    write_cii_acs(s, &invoice.document_charges, true, cur);
    proof {
        reveal(doc_ac_text);
        assert(s@ =~= s0 + doc_ac_text(*invoice));
        lemma_grows_by(s0, doc_ac_text(*invoice));
    }
}

/// One applicable trade tax for a breakdown row, with the tax point code
/// and date.
pub open spec fn cii_tax_row_text(invoice: Invoice, row: TaxBreakdown) -> Seq<char> {
    ro(3, "ApplicableTradeTax"@) + ra(4, "CalculatedAmount"@, row.tax.dec(), invoice.currency@) + rl(
        4,
        "TypeCode"@,
        wire_scheme_of(invoice.profile, row.system, row.category@),
        None,
    ) + opt_rl(4, "ExemptionReason"@, opt_text(row.exemption_reason)) + ra(4, "BasisAmount"@, row.taxable.dec(), invoice.currency@)
        + rl(4, "CategoryCode"@, row.category@, None) + opt_rl(4, "ExemptionReasonCode"@, code_text(row.exemption_code))
        + opt_rl(4, "DueDateTypeCode"@, code_text(invoice.tax_point_code)) + match invoice.tax_point_date {
        Some(d) => date102_text(4, "TaxPointDate"@, d),
        None => Seq::empty(),
    } + match row.rate {
        Some(r) => rl(4, "RateApplicablePercent"@, normal_text(r.dec()), None),
        None => Seq::empty(),
    } + rc(3, "ApplicableTradeTax"@)
}

/// The applicable trade taxes of the rows, in order.
pub open spec fn cii_tax_rows_text(invoice: Invoice, rows: Seq<TaxBreakdown>) -> Seq<char>
    decreases rows.len(),
{
    if rows.len() == 0 {
        Seq::empty()
    } else {
        cii_tax_rows_text(invoice, rows.drop_last()) + cii_tax_row_text(invoice, rows.last())
    }
}

#[verifier::rlimit(40)]
fn write_tax_row(s: &mut String, invoice: &Invoice, row: &TaxBreakdown)
    ensures
        final(s)@ == old(s)@ + cii_tax_row_text(*invoice, *row),
{
    let ghost s0 = s@;
    let cur = invoice.currency.as_str();
    open(s, 3, "ApplicableTradeTax");
    amount_ram(s, 4, "CalculatedAmount", row.tax, cur);
    leaf_ram(s, 4, "TypeCode", wire_scheme(invoice.profile, row.system, row.category.as_str()), None);
    opt_leaf(s, 4, "ExemptionReason", &row.exemption_reason);
    amount_ram(s, 4, "BasisAmount", row.taxable, cur);
    leaf_ram(s, 4, "CategoryCode", row.category.as_str(), None);
    opt_code_leaf(s, 4, "ExemptionReasonCode", &row.exemption_code);
    opt_code_leaf(s, 4, "DueDateTypeCode", &invoice.tax_point_code);
    let ghost s1 = s@;
    if let Some(d) = invoice.tax_point_date {
        date_102(s, 4, "TaxPointDate", d);
    }
    let ghost s2 = s@;
    if let Some(r) = row.rate {
        leaf_ram(s, 4, "RateApplicablePercent", r.to_string().as_str(), None);
    }
    let ghost s3 = s@;
    close(s, 3, "ApplicableTradeTax");
    assert(s@ =~= s0 + cii_tax_row_text(*invoice, *row));
}

/// The tax breakdown, one applicable trade tax per row, each with the tax
/// point code and date.
#[verifier::rlimit(40)]
fn write_tax(s: &mut String, invoice: &Invoice)
    ensures
        final(s)@ == old(s)@ + cii_tax_rows_text(*invoice, invoice.tax_breakdown@),
        grows(old(s)@, final(s)@),
{
    let ghost s0 = s@;
    let ghost rows = invoice.tax_breakdown@;
    let mut i: usize = 0;
    assert(rows.take(0) =~= Seq::<TaxBreakdown>::empty());
    assert(s0 =~= s0 + Seq::<char>::empty());
    while i < invoice.tax_breakdown.len()
        invariant
            i <= invoice.tax_breakdown.len(),
            rows == invoice.tax_breakdown@,
            s@ == s0 + cii_tax_rows_text(*invoice, rows.take(i as int)),
        decreases invoice.tax_breakdown.len() - i,
    {
        write_tax_row(s, invoice, &invoice.tax_breakdown[i]);
        proof {
            assert(rows.take(i + 1).drop_last() =~= rows.take(i as int));
            lemma_app(s0, cii_tax_rows_text(*invoice, rows.take(i as int)), cii_tax_row_text(*invoice, rows[i as int]));
        }
        i = i + 1;
    }
    assert(rows.take(rows.len() as int) =~= rows);
    proof {
        assert(s@ =~= s0 + cii_tax_rows_text(*invoice, invoice.tax_breakdown@));
        lemma_grows_by(s0, cii_tax_rows_text(*invoice, invoice.tax_breakdown@));
    }
}

/// The text of the header totals; nothing where there are none.
#[verifier::opaque]
pub open spec fn totals_text(invoice: Invoice) -> Seq<char> {
    match invoice.totals {
        Some(t) => ro(3, "SpecifiedTradeSettlementHeaderMonetarySummation"@) + opt_ra(4, "LineTotalAmount"@, t.line_net, invoice.currency@)
            + opt_ra(4, "TaxBasisTotalAmount"@, t.without_tax, invoice.currency@) + opt_ra(
            4,
            "TaxTotalAmount"@,
            t.tax_total,
            invoice.currency@,
        ) + opt_ra(4, "GrandTotalAmount"@, t.with_tax, invoice.currency@) + opt_ra(
            4,
            "DuePayableAmount"@,
            t.payable,
            invoice.currency@,
        ) + rc(3, "SpecifiedTradeSettlementHeaderMonetarySummation"@),
        None => Seq::empty(),
    }
}

/// The header totals.
#[verifier::rlimit(40)]
fn write_totals(s: &mut String, invoice: &Invoice)
    ensures
        final(s)@ == old(s)@ + totals_text(*invoice),
        grows(old(s)@, final(s)@),
{
    let ghost s0 = s@;
    proof {
        reveal(totals_text);
    }
    let t = match &invoice.totals {
        Some(t) => t,
        None => {
            assert(s@ =~= s0 + totals_text(*invoice));
            proof {
                lemma_grows_by(s0, totals_text(*invoice));
            }
            return;
        },
    };
    let cur = invoice.currency.as_str();
    open(s, 3, "SpecifiedTradeSettlementHeaderMonetarySummation");
    opt_amount(s, 4, "LineTotalAmount", t.line_net, cur);
    opt_amount(s, 4, "TaxBasisTotalAmount", t.without_tax, cur);
    opt_amount(s, 4, "TaxTotalAmount", t.tax_total, cur);
    opt_amount(s, 4, "GrandTotalAmount", t.with_tax, cur);
    opt_amount(s, 4, "DuePayableAmount", t.payable, cur);
    close(s, 3, "SpecifiedTradeSettlementHeaderMonetarySummation");
    proof {
        assert(s@ =~= s0 + totals_text(*invoice));
        lemma_grows_by(s0, totals_text(*invoice));
    }
}


/// The XML declaration, the document element and the start of the context
/// of a written CII document.
pub open spec fn cii_head() -> Seq<char> {
    "<?xml version=\"1.0\" encoding=\"UTF-8\"?>\n<rsm:CrossIndustryInvoice xmlns:rsm=\""@ + NS_RSM@
        + "\" xmlns:ram=\""@ + NS_RAM@ + "\" xmlns:udt=\""@ + NS_UDT@ + "\">\n"@
        + "  <rsm:ExchangedDocumentContext>\n"@
}

/// The closing tag of the document element.
pub open spec fn cii_tail() -> Seq<char> {
    "</rsm:CrossIndustryInvoice>\n"@
}

/// A written CII document: the XML declaration and the document element
/// open it, the closing tag of the document element ends it.
pub open spec fn cii_shaped(t: Seq<char>) -> bool {
    &&& grows(cii_head(), t)
    &&& t.len() >= cii_head().len() + cii_tail().len()
    &&& t.subrange(t.len() - cii_tail().len(), t.len() as int) == cii_tail()
}

/// The included notes, in order, each with its subject code.
pub open spec fn cii_notes_text(notes: Seq<InvoiceNote>) -> Seq<char>
    decreases notes.len(),
{
    if notes.len() == 0 {
        Seq::empty()
    } else {
        cii_notes_text(notes.drop_last()) + ro(2, "IncludedNote"@) + rl(3, "Content"@, notes.last().text@, None) + opt_rl(
            3,
            "SubjectCode"@,
            code_text(notes.last().subject),
        ) + rc(2, "IncludedNote"@)
    }
}

/// The specification identifier written: the invoice's own, else the
/// profile's.
pub open spec fn spec_id_written(invoice: Invoice) -> Seq<char> {
    match invoice.specification_id {
        Some(id) => id@,
        None => profile_spec_id(invoice.profile),
    }
}

/// The document context part: business process and specification.
pub open spec fn context_text(invoice: Invoice) -> Seq<char> {
    (match invoice.business_process {
        Some(bp) => ro(2, "BusinessProcessSpecifiedDocumentContextParameter"@) + rl(3, "ID"@, bp@, None) + rc(
            2,
            "BusinessProcessSpecifiedDocumentContextParameter"@,
        ),
        None => Seq::empty(),
    }) + ro(2, "GuidelineSpecifiedDocumentContextParameter"@) + rl(3, "ID"@, spec_id_written(invoice), None) + rc(
        2,
        "GuidelineSpecifiedDocumentContextParameter"@,
    ) + close_text(1, "rsm"@, "ExchangedDocumentContext"@)
}

/// The exchanged document part: number, type code, issue date and notes.
pub open spec fn exchanged_text(invoice: Invoice) -> Seq<char> {
    open_text(1, "rsm"@, "ExchangedDocument"@) + rl(2, "ID"@, invoice.number@, None) + opt_rl(
        2,
        "TypeCode"@,
        code_text(invoice.type_code),
    ) + match invoice.issue_date {
        Some(d) => date102_text(2, "IssueDateTime"@, d),
        None => Seq::empty(),
    } + cii_notes_text(invoice.notes@) + close_text(1, "rsm"@, "ExchangedDocument"@)
}

/// The text of the document context and the exchanged document.
#[verifier::opaque]
pub open spec fn document_text(invoice: Invoice) -> Seq<char> {
    context_text(invoice) + exchanged_text(invoice)
}

#[verifier::rlimit(40)]
fn write_context(s: &mut String, invoice: &Invoice)
    ensures
        final(s)@ == old(s)@ + context_text(*invoice),
{
    let ghost s0 = s@;
    if let Some(bp) = &invoice.business_process {
        open(s, 2, "BusinessProcessSpecifiedDocumentContextParameter");
        leaf_ram(s, 3, "ID", bp.as_str(), None);
        close(s, 2, "BusinessProcessSpecifiedDocumentContextParameter");
    }
    let ghost s1 = s@;
    let spec = match &invoice.specification_id {
        Some(id) => id.as_str(),
        None => invoice.profile.specification_id(),
    };
    open(s, 2, "GuidelineSpecifiedDocumentContextParameter");
    leaf_ram(s, 3, "ID", spec, None);
    close(s, 2, "GuidelineSpecifiedDocumentContextParameter");
    close_el(s, 1, "rsm", "ExchangedDocumentContext");
    assert(s@ =~= s0 + context_text(*invoice));
}

#[verifier::rlimit(40)]
fn write_cii_notes(s: &mut String, invoice: &Invoice)
    ensures
        final(s)@ == old(s)@ + cii_notes_text(invoice.notes@),
{
    let ghost s0 = s@;
    let ghost ns = invoice.notes@;
    let mut i: usize = 0;
    assert(ns.take(0) =~= Seq::<InvoiceNote>::empty());
    assert(s0 =~= s0 + Seq::<char>::empty());
    while i < invoice.notes.len()
        invariant
            i <= invoice.notes.len(),
            ns == invoice.notes@,
            s@ == s0 + cii_notes_text(ns.take(i as int)),
        decreases invoice.notes.len() - i,
    {
        let n = &invoice.notes[i];
        open(s, 2, "IncludedNote");
        leaf_ram(s, 3, "Content", n.text.as_str(), None);
        opt_code_leaf(s, 3, "SubjectCode", &n.subject);
        close(s, 2, "IncludedNote");
        proof {
            assert(ns.take(i + 1).drop_last() =~= ns.take(i as int));
            assert(s@ =~= s0 + cii_notes_text(ns.take(i + 1)));
        }
        i = i + 1;
    }
    assert(ns.take(ns.len() as int) =~= ns);
}

#[verifier::rlimit(40)]
fn write_exchanged(s: &mut String, invoice: &Invoice)
    ensures
        final(s)@ == old(s)@ + exchanged_text(*invoice),
{
    let ghost s0 = s@;
    open_el(s, 1, "rsm", "ExchangedDocument");
    leaf_ram(s, 2, "ID", invoice.number.as_str(), None);
    opt_code_leaf(s, 2, "TypeCode", &invoice.type_code);
    let ghost s1 = s@;
    if let Some(d) = invoice.issue_date {
        date_102(s, 2, "IssueDateTime", d);
    }
    let ghost s2 = s@;
    write_cii_notes(s, invoice);
    close_el(s, 1, "rsm", "ExchangedDocument");
    assert(s@ =~= s0 + exchanged_text(*invoice));
}

/// The document context and the exchanged document: process, BT-24,
/// number, type code, issue date and notes.
#[verifier::rlimit(40)]
fn write_document(s: &mut String, invoice: &Invoice)
    ensures
        final(s)@ == old(s)@ + document_text(*invoice),
        grows(old(s)@, final(s)@),
{
    let ghost s0 = s@;
    write_context(s, invoice);
    write_exchanged(s, invoice);
    proof {
        reveal(document_text);
        assert(s@ =~= s0 + document_text(*invoice));
        lemma_grows_by(s0, document_text(*invoice));
    }
}

/// The supporting documents as additional referenced documents, in order.
pub open spec fn additional_docs_text(ds: Seq<SupportingDocument>) -> Seq<char>
    decreases ds.len(),
{
    if ds.len() == 0 {
        Seq::empty()
    } else {
        additional_docs_text(ds.drop_last()) + additional_doc_text(ds.last(), "916"@)
    }
}

/// The first part of the header agreement: buyer reference, parties, tax
/// representative, order and contract references.
pub open spec fn agreement_a(invoice: Invoice) -> Seq<char> {
    opt_rl(3, "BuyerReference"@, ref_text(invoice.buyer_reference)) + trade_party_text(
        "SellerTradeParty"@,
        invoice.seller,
        true,
    ) + trade_party_text("BuyerTradeParty"@, invoice.buyer, false) + tax_rep_text(invoice.tax_representative) + doc_ref_text(
        "SellerOrderReferencedDocument"@,
        invoice.sales_order,
    ) + doc_ref_text("BuyerOrderReferencedDocument"@, invoice.purchase_order) + doc_ref_text(
        "ContractReferencedDocument"@,
        invoice.contract,
    )
}

/// The last part of the header agreement: tender, invoiced object, project.
pub open spec fn agreement_b(invoice: Invoice) -> Seq<char> {
    (match invoice.tender {
        Some(t) => ro(3, "AdditionalReferencedDocument"@) + rl(4, "IssuerAssignedID"@, t.0@, None) + rl(4, "TypeCode"@, "50"@, None)
            + rc(3, "AdditionalReferencedDocument"@),
        None => Seq::empty(),
    }) + match invoice.invoiced_object {
        Some(o) => ro(3, "AdditionalReferencedDocument"@) + rl(4, "IssuerAssignedID"@, o.value@, None) + rl(
            4,
            "TypeCode"@,
            "130"@,
            None,
        ) + opt_rl(4, "ReferenceTypeCode"@, opt_text(o.scheme)) + rc(3, "AdditionalReferencedDocument"@),
        None => Seq::empty(),
    } + match invoice.project {
        Some(p) => ro(3, "SpecifiedProcuringProject"@) + rl(4, "ID"@, p.0@, None) + rl(4, "Name"@, p.0@, None) + rc(
            3,
            "SpecifiedProcuringProject"@,
        ),
        None => Seq::empty(),
    }
}

/// The text of the header agreement.
#[verifier::opaque]
pub open spec fn agreement_text(invoice: Invoice) -> Seq<char> {
    ro(2, "ApplicableHeaderTradeAgreement"@) + agreement_a(invoice) + additional_docs_text(invoice.supporting_documents@)
        + agreement_b(invoice) + rc(2, "ApplicableHeaderTradeAgreement"@)
}

#[verifier::rlimit(40)]
fn write_agreement_a(s: &mut String, invoice: &Invoice)
    ensures
        final(s)@ == old(s)@ + agreement_a(*invoice),
{
    let ghost s0 = s@;
    if let Some(br) = &invoice.buyer_reference {
        leaf_ram(s, 3, "BuyerReference", br.as_str(), None);
    } else {
        assert(s@ =~= s@ + Seq::<char>::empty());
    }
    write_trade_party(s, "SellerTradeParty", &invoice.seller, true);
    write_trade_party(s, "BuyerTradeParty", &invoice.buyer, false);
    write_tax_rep(s, &invoice.tax_representative);
    write_doc_ref(s, "SellerOrderReferencedDocument", &invoice.sales_order);
    write_doc_ref(s, "BuyerOrderReferencedDocument", &invoice.purchase_order);
    write_doc_ref(s, "ContractReferencedDocument", &invoice.contract);
    assert(s@ =~= s0 + agreement_a(*invoice));
}

#[verifier::rlimit(40)]
fn write_additional_docs(s: &mut String, invoice: &Invoice)
    ensures
        final(s)@ == old(s)@ + additional_docs_text(invoice.supporting_documents@),
{
    let ghost s0 = s@;
    let ghost ds = invoice.supporting_documents@;
    let mut i: usize = 0;
    assert(ds.take(0) =~= Seq::<SupportingDocument>::empty());
    assert(s0 =~= s0 + Seq::<char>::empty());
    while i < invoice.supporting_documents.len()
        invariant
            i <= invoice.supporting_documents.len(),
            ds == invoice.supporting_documents@,
            s@ == s0 + additional_docs_text(ds.take(i as int)),
        decreases invoice.supporting_documents.len() - i,
    {
        write_additional_doc(s, &invoice.supporting_documents[i], "916");
        proof {
            assert(ds.take(i + 1).drop_last() =~= ds.take(i as int));
            lemma_app(s0, additional_docs_text(ds.take(i as int)), additional_doc_text(ds[i as int], "916"@));
        }
        i = i + 1;
    }
    assert(ds.take(ds.len() as int) =~= ds);
}

#[verifier::rlimit(40)]
fn write_agreement_b(s: &mut String, invoice: &Invoice)
    ensures
        final(s)@ == old(s)@ + agreement_b(*invoice),
{
    let ghost s0 = s@;
    if let Some(t) = &invoice.tender {
        open(s, 3, "AdditionalReferencedDocument");
        leaf_ram(s, 4, "IssuerAssignedID", t.as_str(), None);
        leaf_ram(s, 4, "TypeCode", "50", None);
        close(s, 3, "AdditionalReferencedDocument");
    }
    let ghost s1 = s@;
    if let Some(o) = &invoice.invoiced_object {
        open(s, 3, "AdditionalReferencedDocument");
        leaf_ram(s, 4, "IssuerAssignedID", o.value.as_str(), None);
        leaf_ram(s, 4, "TypeCode", "130", None);
        opt_leaf(s, 4, "ReferenceTypeCode", &o.scheme);
        close(s, 3, "AdditionalReferencedDocument");
    }
    let ghost s2 = s@;
    if let Some(p) = &invoice.project {
        open(s, 3, "SpecifiedProcuringProject");
        leaf_ram(s, 4, "ID", p.as_str(), None);
        leaf_ram(s, 4, "Name", p.as_str(), None);
        close(s, 3, "SpecifiedProcuringProject");
    }
    assert(s@ =~= s0 + agreement_b(*invoice));
}

/// The header agreement: buyer reference, parties, order and contract
/// references, supporting documents, tender, invoiced object and project.
#[verifier::rlimit(40)]
fn write_agreement(s: &mut String, invoice: &Invoice)
    ensures
        final(s)@ == old(s)@ + agreement_text(*invoice),
        grows(old(s)@, final(s)@),
{
    let ghost s0 = s@;
    open(s, 2, "ApplicableHeaderTradeAgreement");
    write_agreement_a(s, invoice);
    write_additional_docs(s, invoice);
    write_agreement_b(s, invoice);
    close(s, 2, "ApplicableHeaderTradeAgreement");
    proof {
        reveal(agreement_text);
        assert(s@ =~= s0 + agreement_text(*invoice));
        lemma_grows_by(s0, agreement_text(*invoice));
    }
}

/// The first part of the header settlement: payment reference, currency,
/// payee, payment means and taxes.
pub open spec fn settlement_a(invoice: Invoice) -> Seq<char> {
    (match invoice.payment {
        Some(p) => opt_rl(3, "PaymentReference"@, opt_text(p.remittance)),
        None => Seq::empty(),
    }) + when(invoice.currency@.len() > 0, rl(3, "InvoiceCurrencyCode"@, invoice.currency@, None)) + payee_text(invoice.payee)
        + payment_text(invoice) + cii_tax_rows_text(invoice, invoice.tax_breakdown@)
}

/// The last part of the header settlement: period, allowances and charges,
/// terms, totals, preceding invoices and accounting reference.
pub open spec fn settlement_b(invoice: Invoice) -> Seq<char> {
    (match invoice.period {
        Some(p) => billing_period_text(3, p),
        None => Seq::empty(),
    }) + doc_ac_text(invoice) + payment_terms_text(invoice) + totals_text(invoice) + preceding_text(invoice.preceding@)
        + match invoice.buyer_accounting {
        Some(acc) => ro(3, "ReceivableSpecifiedTradeAccountingAccount"@) + rl(4, "ID"@, acc@, None) + rc(
            3,
            "ReceivableSpecifiedTradeAccountingAccount"@,
        ),
        None => Seq::empty(),
    }
}

/// The text of the header settlement.
#[verifier::opaque]
pub open spec fn settlement_text(invoice: Invoice) -> Seq<char> {
    ro(2, "ApplicableHeaderTradeSettlement"@) + settlement_a(invoice) + settlement_b(invoice) + rc(
        2,
        "ApplicableHeaderTradeSettlement"@,
    )
}

#[verifier::rlimit(40)]
fn write_settlement_a(s: &mut String, invoice: &Invoice)
    ensures
        final(s)@ == old(s)@ + settlement_a(*invoice),
{
    let ghost s0 = s@;
    if let Some(p) = &invoice.payment {
        opt_leaf(s, 3, "PaymentReference", &p.remittance);
    }
    let ghost s1 = s@;
    if has_chars(invoice.currency.as_str()) {
        leaf_ram(s, 3, "InvoiceCurrencyCode", invoice.currency.as_str(), None);
    }
    let ghost s2 = s@;
    write_payee(s, &invoice.payee);
    write_payment(s, invoice);
    write_tax(s, invoice);
    assert(s@ =~= s0 + settlement_a(*invoice));
}

#[verifier::rlimit(40)]
fn write_settlement_b(s: &mut String, invoice: &Invoice)
    ensures
        final(s)@ == old(s)@ + settlement_b(*invoice),
{
    let ghost s0 = s@;
    if let Some(p) = &invoice.period {
        write_billing_period(s, 3, p);
    }
    let ghost s1 = s@;
    write_doc_ac(s, invoice);
    write_payment_terms(s, invoice);
    write_totals(s, invoice);
    write_preceding(s, invoice);
    let ghost s2 = s@;
    if let Some(acc) = &invoice.buyer_accounting {
        open(s, 3, "ReceivableSpecifiedTradeAccountingAccount");
        leaf_ram(s, 4, "ID", acc.as_str(), None);
        close(s, 3, "ReceivableSpecifiedTradeAccountingAccount");
    }
    assert(s@ =~= s0 + settlement_b(*invoice));
}

/// The header settlement.
#[verifier::rlimit(40)]
fn write_settlement(s: &mut String, invoice: &Invoice)
    ensures
        final(s)@ == old(s)@ + settlement_text(*invoice),
        grows(old(s)@, final(s)@),
{
    let ghost s0 = s@;
    open(s, 2, "ApplicableHeaderTradeSettlement");
    write_settlement_a(s, invoice);
    write_settlement_b(s, invoice);
    close(s, 2, "ApplicableHeaderTradeSettlement");
    proof {
        reveal(settlement_text);
        assert(s@ =~= s0 + settlement_text(*invoice));
        lemma_grows_by(s0, settlement_text(*invoice));
    }
}

/// The trade line items of an invoice, in order.
pub open spec fn cii_lines_text(lines: Seq<Line>, profile: Profile, cur: Seq<char>) -> Seq<char>
    decreases lines.len(),
{
    if lines.len() == 0 {
        Seq::empty()
    } else {
        cii_lines_text(lines.drop_last(), profile, cur) + line_text(lines.last(), profile, cur)
    }
}

/// The whole CII text of an invoice: the XML declaration and document
/// element, the document context and header, then the transaction (the line
/// items, the header agreement, delivery and settlement), then the closing
/// tag.
pub open spec fn cii_text(invoice: Invoice) -> Seq<char> {
    cii_head() + document_text(invoice) + crate::formats::xml_out::open_text(1, "rsm"@, "SupplyChainTradeTransaction"@)
        + cii_lines_text(invoice.lines@, invoice.profile, invoice.currency@) + agreement_text(invoice)
        + delivery_text(invoice) + settlement_text(invoice) + crate::formats::xml_out::close_text(
        1,
        "rsm"@,
        "SupplyChainTradeTransaction"@,
    ) + cii_tail()
}

/// Write a CII document without validating it; PINT-MY is refused (it is
/// UBL-only). Otherwise the text is [`cii_text`]: it starts with the XML
/// declaration and the document element, and ends with its closing tag.
#[verifier::rlimit(40)]
pub fn write_unchecked(invoice: &Invoice) -> (r: Result<String, FormatError>)
    ensures
        r is Err <==> invoice.profile == Profile::PintMy,
        r matches Err(e) ==> e is CiiNotForProfile,
        r matches Ok(x) ==> x@ == cii_text(*invoice),
        r matches Ok(x) ==> cii_shaped(x@),
{
    if invoice.profile == Profile::PintMy {
        return Err(FormatError::CiiNotForProfile);
    }
    let mut s = owned("<?xml version=\"1.0\" encoding=\"UTF-8\"?>\n<rsm:CrossIndustryInvoice xmlns:rsm=\"");
    s.append(NS_RSM);
    s.append("\" xmlns:ram=\"");
    s.append(NS_RAM);
    s.append("\" xmlns:udt=\"");
    s.append(NS_UDT);
    s.append("\">\n");
    s.append("  <rsm:ExchangedDocumentContext>\n");
    assert(s@ =~= cii_head());
    let ghost sh = s@;
    write_document(&mut s, invoice);
    open_el(&mut s, 1, "rsm", "SupplyChainTradeTransaction");
    let ghost s0 = s@;
    let cur = invoice.currency.as_str();
    let mut i: usize = 0;
    while i < invoice.lines.len()
        invariant
            i <= invoice.lines.len(),
            cur@ == invoice.currency@,
            s@ == s0 + cii_lines_text(invoice.lines@.take(i as int), invoice.profile, cur@),
        decreases invoice.lines.len() - i,
    {
        proof {
            assert(invoice.lines@.take(i + 1).drop_last() =~= invoice.lines@.take(i as int));
        }
        write_line(&mut s, &invoice.lines[i], invoice.profile, cur);
        i = i + 1;
        proof {
            assert(s@ =~= s0 + cii_lines_text(invoice.lines@.take(i as int), invoice.profile, cur@));
        }
    }
    assert(invoice.lines@.take(i as int) =~= invoice.lines@);
    let ghost sl = s@;
    write_agreement(&mut s, invoice);
    write_delivery(&mut s, invoice);
    write_settlement(&mut s, invoice);
    close_el(&mut s, 1, "rsm", "SupplyChainTradeTransaction");
    let ghost body = s@;
    s.append("</rsm:CrossIndustryInvoice>\n");
    proof {
        assert(s@ =~= body + cii_tail());
        assert(s@ =~= cii_text(*invoice));
        assert(grows(cii_head(), s@)) by {
            lemma_grows_by(cii_head(), s@.subrange(cii_head().len() as int, s@.len() as int));
            assert(cii_head() + s@.subrange(cii_head().len() as int, s@.len() as int) =~= s@);
        }
        assert(s@.subrange(s@.len() - cii_tail().len(), s@.len() as int) =~= cii_tail());
    }
    Ok(s)
}

/// The whole CII text holds the text of the header totals.
proof fn lemma_cii_holds_totals(invoice: Invoice)
    ensures
        contains(cii_text(invoice), totals_text(invoice)),
{
    let tot = totals_text(invoice);
    let head = cii_head() + document_text(invoice) + crate::formats::xml_out::open_text(
        1,
        "rsm"@,
        "SupplyChainTradeTransaction"@,
    ) + cii_lines_text(invoice.lines@, invoice.profile, invoice.currency@) + agreement_text(invoice)
        + delivery_text(invoice);
    let tail = crate::formats::xml_out::close_text(1, "rsm"@, "SupplyChainTradeTransaction"@) + cii_tail();
    let st = settlement_text(invoice);
    assert(cii_text(invoice) =~= head + st + tail);
    lemma_contains_piece(head, st, tail);
    let sb = settlement_b(invoice);
    assert(st == ro(2, "ApplicableHeaderTradeSettlement"@) + settlement_a(invoice) + sb + rc(
        2,
        "ApplicableHeaderTradeSettlement"@,
    )) by {
        reveal(settlement_text);
    }
    lemma_contains_piece(ro(2, "ApplicableHeaderTradeSettlement"@) + settlement_a(invoice), sb, rc(
        2,
        "ApplicableHeaderTradeSettlement"@,
    ));
    lemma_contains_trans(cii_text(invoice), st, sb);
    let pre = (match invoice.period {
        Some(p) => billing_period_text(3, p),
        None => Seq::empty(),
    }) + doc_ac_text(invoice) + payment_terms_text(invoice);
    let post = preceding_text(invoice.preceding@) + match invoice.buyer_accounting {
        Some(acc) => ro(3, "ReceivableSpecifiedTradeAccountingAccount"@) + rl(4, "ID"@, acc@, None) + rc(
            3,
            "ReceivableSpecifiedTradeAccountingAccount"@,
        ),
        None => Seq::empty(),
    };
    assert(sb =~= pre + tot + post);
    lemma_contains_piece(pre, tot, post);
    lemma_contains_trans(cii_text(invoice), sb, tot);
}

/// The header totals text holds the element of each total that is present.
proof fn lemma_cii_totals_hold_amounts(invoice: Invoice, t: DocumentTotals)
    requires
        invoice.totals == Some(t),
    ensures
        contains(totals_text(invoice), opt_ra(4, "LineTotalAmount"@, t.line_net, invoice.currency@)),
        contains(totals_text(invoice), opt_ra(4, "TaxBasisTotalAmount"@, t.without_tax, invoice.currency@)),
        contains(totals_text(invoice), opt_ra(4, "TaxTotalAmount"@, t.tax_total, invoice.currency@)),
        contains(totals_text(invoice), opt_ra(4, "GrandTotalAmount"@, t.with_tax, invoice.currency@)),
        contains(totals_text(invoice), opt_ra(4, "DuePayableAmount"@, t.payable, invoice.currency@)),
{
    let cur = invoice.currency@;
    let f0 = ro(3, "SpecifiedTradeSettlementHeaderMonetarySummation"@);
    let f1 = opt_ra(4, "LineTotalAmount"@, t.line_net, cur);
    let f2 = opt_ra(4, "TaxBasisTotalAmount"@, t.without_tax, cur);
    let f3 = opt_ra(4, "TaxTotalAmount"@, t.tax_total, cur);
    let f4 = opt_ra(4, "GrandTotalAmount"@, t.with_tax, cur);
    let f5 = opt_ra(4, "DuePayableAmount"@, t.payable, cur);
    let f6 = rc(3, "SpecifiedTradeSettlementHeaderMonetarySummation"@);
    let tot = totals_text(invoice);
    assert(tot == f0 + f1 + f2 + f3 + f4 + f5 + f6) by {
        reveal(totals_text);
    }
    let l1 = f0 + f1;
    let l2 = l1 + f2;
    let l3 = l2 + f3;
    let l4 = l3 + f4;
    let l5 = l4 + f5;
    lemma_contains_ends(l5, f6);
    lemma_contains_ends(l4, f5);
    lemma_contains_ends(l3, f4);
    lemma_contains_ends(l2, f3);
    lemma_contains_ends(l1, f2);
    lemma_contains_ends(f0, f1);
    lemma_contains_trans(tot, l5, l4);
    lemma_contains_trans(tot, l4, l3);
    lemma_contains_trans(tot, l3, l2);
    lemma_contains_trans(tot, l2, l1);
    lemma_contains_trans(tot, l1, f1);
    lemma_contains_trans(tot, l2, f2);
    lemma_contains_trans(tot, l3, f3);
    lemma_contains_trans(tot, l4, f4);
    lemma_contains_trans(tot, l5, f5);
}

/// Each header total is written, in the document currency, under the CII
/// element that names it: BT-106 as LineTotalAmount, BT-109 as
/// TaxBasisTotalAmount, BT-110 as TaxTotalAmount, BT-112 as
/// GrandTotalAmount and BT-115 as DuePayableAmount, at the depth of the
/// header monetary summation (line totals sit one level deeper); these are
/// the elements the CII reader takes each total from.
pub proof fn lemma_cii_totals_under_their_elements(invoice: Invoice)
    ensures
        invoice.totals matches Some(t) ==> {
            let w = cii_text(invoice);
            let cur = invoice.currency@;
            &&& t.line_net matches Some(v) ==> contains(w, ra(4, "LineTotalAmount"@, v.dec(), cur))
            &&& t.without_tax matches Some(v) ==> contains(w, ra(4, "TaxBasisTotalAmount"@, v.dec(), cur))
            &&& t.tax_total matches Some(v) ==> contains(w, ra(4, "TaxTotalAmount"@, v.dec(), cur))
            &&& t.with_tax matches Some(v) ==> contains(w, ra(4, "GrandTotalAmount"@, v.dec(), cur))
            &&& t.payable matches Some(v) ==> contains(w, ra(4, "DuePayableAmount"@, v.dec(), cur))
        },
{
    if let Some(t) = invoice.totals {
        let w = cii_text(invoice);
        let cur = invoice.currency@;
        let tot = totals_text(invoice);
        lemma_cii_holds_totals(invoice);
        lemma_cii_totals_hold_amounts(invoice, t);
        lemma_contains_trans(w, tot, opt_ra(4, "LineTotalAmount"@, t.line_net, cur));
        lemma_contains_trans(w, tot, opt_ra(4, "TaxBasisTotalAmount"@, t.without_tax, cur));
        lemma_contains_trans(w, tot, opt_ra(4, "TaxTotalAmount"@, t.tax_total, cur));
        lemma_contains_trans(w, tot, opt_ra(4, "GrandTotalAmount"@, t.with_tax, cur));
        lemma_contains_trans(w, tot, opt_ra(4, "DuePayableAmount"@, t.payable, cur));
    }
}

} // verus!
