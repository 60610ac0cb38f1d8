//! The ten VAT category families, their table of group, rate and tax rules,
//! and the category subsets of PINT.
use vstd::prelude::*;
use crate::profile::Profile;
use crate::text::str_eq;

verus! {

/// VAT category (UNCL 5305 subset used by EN 16931).
#[derive(Debug, Clone, Copy, PartialEq, Eq, Structural)]
pub enum VatCategory {
    Standard,
    ZeroRated,
    Exempt,
    ReverseCharge,
    IntraCommunity,
    Export,
    OutOfScope,
    CanaryIslands,
    CeutaMelilla,
    SplitPayment,
}

/// Code of a category.
pub open spec fn category_code(c: VatCategory) -> Seq<char> {
    match c {
        VatCategory::Standard => "S"@,
        VatCategory::ZeroRated => "Z"@,
        VatCategory::Exempt => "E"@,
        VatCategory::ReverseCharge => "AE"@,
        VatCategory::IntraCommunity => "K"@,
        VatCategory::Export => "G"@,
        VatCategory::OutOfScope => "O"@,
        VatCategory::CanaryIslands => "L"@,
        VatCategory::CeutaMelilla => "M"@,
        VatCategory::SplitPayment => "B"@,
    }
}

/// The category a code names: the upper-case code or its all-lower-case form.
pub open spec fn category_for_code(s: Seq<char>) -> Option<VatCategory> {
    if s == "S"@ || s == "s"@ {
        Some(VatCategory::Standard)
    } else if s == "Z"@ || s == "z"@ {
        Some(VatCategory::ZeroRated)
    } else if s == "E"@ || s == "e"@ {
        Some(VatCategory::Exempt)
    } else if s == "AE"@ || s == "ae"@ {
        Some(VatCategory::ReverseCharge)
    } else if s == "K"@ || s == "k"@ {
        Some(VatCategory::IntraCommunity)
    } else if s == "G"@ || s == "g"@ {
        Some(VatCategory::Export)
    } else if s == "O"@ || s == "o"@ {
        Some(VatCategory::OutOfScope)
    } else if s == "L"@ || s == "l"@ {
        Some(VatCategory::CanaryIslands)
    } else if s == "M"@ || s == "m"@ {
        Some(VatCategory::CeutaMelilla)
    } else if s == "B"@ || s == "b"@ {
        Some(VatCategory::SplitPayment)
    } else {
        None
    }
}

/// Categories that need an exemption reason.
pub open spec fn needs_reason(c: VatCategory) -> bool {
    c == VatCategory::Exempt || c == VatCategory::ReverseCharge || c == VatCategory::IntraCommunity
        || c == VatCategory::Export || c == VatCategory::OutOfScope
}

/// Categories that forbid an exemption reason.
pub open spec fn bars_reason(c: VatCategory) -> bool {
    c == VatCategory::Standard || c == VatCategory::ZeroRated || c == VatCategory::CanaryIslands
        || c == VatCategory::CeutaMelilla
}

impl VatCategory {
    /// Code of the category.
    pub fn code(self) -> (r: &'static str)
        ensures
            r@ == category_code(self),
    {
        match self {
            VatCategory::Standard => "S",
            VatCategory::ZeroRated => "Z",
            VatCategory::Exempt => "E",
            VatCategory::ReverseCharge => "AE",
            VatCategory::IntraCommunity => "K",
            VatCategory::Export => "G",
            VatCategory::OutOfScope => "O",
            VatCategory::CanaryIslands => "L",
            VatCategory::CeutaMelilla => "M",
            VatCategory::SplitPayment => "B",
        }
    }

    /// Category for a code (upper case, or all lower case).
    pub fn parse(code: &str) -> (r: Option<VatCategory>)
        ensures
            r == category_for_code(code@),
    {
        if str_eq(code, "S") || str_eq(code, "s") {
            Some(VatCategory::Standard)
        } else if str_eq(code, "Z") || str_eq(code, "z") {
            Some(VatCategory::ZeroRated)
        } else if str_eq(code, "E") || str_eq(code, "e") {
            Some(VatCategory::Exempt)
        } else if str_eq(code, "AE") || str_eq(code, "ae") {
            Some(VatCategory::ReverseCharge)
        } else if str_eq(code, "K") || str_eq(code, "k") {
            Some(VatCategory::IntraCommunity)
        } else if str_eq(code, "G") || str_eq(code, "g") {
            Some(VatCategory::Export)
        } else if str_eq(code, "O") || str_eq(code, "o") {
            Some(VatCategory::OutOfScope)
        } else if str_eq(code, "L") || str_eq(code, "l") {
            Some(VatCategory::CanaryIslands)
        } else if str_eq(code, "M") || str_eq(code, "m") {
            Some(VatCategory::CeutaMelilla)
        } else if str_eq(code, "B") || str_eq(code, "b") {
            Some(VatCategory::SplitPayment)
        } else {
            None
        }
    }

    /// The category needs an exemption reason (E, AE, K, G, O).
    pub fn requires_exemption_reason(self) -> (r: bool)
        ensures
            r == needs_reason(self),
    {
        match self {
            VatCategory::Exempt | VatCategory::ReverseCharge | VatCategory::IntraCommunity
            | VatCategory::Export | VatCategory::OutOfScope => true,
            _ => false,
        }
    }

    /// The category forbids an exemption reason (S, Z, L, M).
    pub fn forbids_exemption_reason(self) -> (r: bool)
        ensures
            r == bars_reason(self),
    {
        match self {
            VatCategory::Standard | VatCategory::ZeroRated | VatCategory::CanaryIslands
            | VatCategory::CeutaMelilla => true,
            _ => false,
        }
    }
}

/// No category both needs and forbids an exemption reason.
pub proof fn lemma_reason_rules_disjoint(c: VatCategory)
    ensures
        !(needs_reason(c) && bars_reason(c)),
{
}

/// A category needs an exemption reason exactly when it carries no tax and
/// is not zero-rated (exempt, reverse charge, intra-community, export, out of
/// scope); every category but split payment either needs or forbids one.
pub proof fn lemma_reason_follows_tax(c: VatCategory)
    ensures
        needs_reason(c) <==> (family(c).tax == TaxRule::Zero && c != VatCategory::ZeroRated),
        c != VatCategory::SplitPayment ==> (needs_reason(c) || bars_reason(c)),
        !needs_reason(VatCategory::SplitPayment) && !bars_reason(VatCategory::SplitPayment),
{
}

/// How many tax breakdown groups a category may have.
#[derive(Debug, Clone, Copy, PartialEq, Eq, Structural)]
pub enum Groups {
    AtLeastOne,
    ExactlyOne,
}

/// What the rate of a category must be.
#[derive(Debug, Clone, Copy, PartialEq, Eq, Structural)]
pub enum RateRule {
    Positive,
    Zero,
    ZeroOrPositive,
    Absent,
}

/// How the tax amount of a category is found.
#[derive(Debug, Clone, Copy, PartialEq, Eq, Structural)]
pub enum TaxRule {
    Zero,
    Derived,
}

/// One row of the family table.
#[derive(Debug, Clone, Copy, PartialEq, Eq, Structural)]
pub struct CategoryProfile {
    pub category: VatCategory,
    pub groups: Groups,
    pub rate: RateRule,
    pub tax: TaxRule,
}

/// The family table.
pub open spec fn family(c: VatCategory) -> CategoryProfile {
    let (groups, rate, tax) = match c {
        VatCategory::Standard => (Groups::AtLeastOne, RateRule::Positive, TaxRule::Derived),
        VatCategory::CanaryIslands | VatCategory::CeutaMelilla => (
            Groups::AtLeastOne,
            RateRule::ZeroOrPositive,
            TaxRule::Derived,
        ),
        VatCategory::ZeroRated | VatCategory::Exempt | VatCategory::ReverseCharge
        | VatCategory::IntraCommunity | VatCategory::Export => (
            Groups::ExactlyOne,
            RateRule::Zero,
            TaxRule::Zero,
        ),
        VatCategory::OutOfScope => (Groups::ExactlyOne, RateRule::Absent, TaxRule::Zero),
        VatCategory::SplitPayment => (Groups::AtLeastOne, RateRule::ZeroOrPositive, TaxRule::Derived),
    };
    CategoryProfile { category: c, groups, rate, tax }
}

impl CategoryProfile {
    /// The family keys its tax breakdown groups on the rate.
    pub fn grouped_by_rate(self) -> (r: bool)
        ensures
            r == (self.groups == Groups::AtLeastOne),
    {
        match self.groups {
            Groups::AtLeastOne => true,
            Groups::ExactlyOne => false,
        }
    }
}

/// Row of the family table for a category.
pub fn profile(category: VatCategory) -> (r: CategoryProfile)
    ensures
        r == family(category),
{
    let (groups, rate, tax) = match category {
        VatCategory::Standard => (Groups::AtLeastOne, RateRule::Positive, TaxRule::Derived),
        VatCategory::CanaryIslands | VatCategory::CeutaMelilla => (
            Groups::AtLeastOne,
            RateRule::ZeroOrPositive,
            TaxRule::Derived,
        ),
        VatCategory::ZeroRated | VatCategory::Exempt | VatCategory::ReverseCharge
        | VatCategory::IntraCommunity | VatCategory::Export => (
            Groups::ExactlyOne,
            RateRule::Zero,
            TaxRule::Zero,
        ),
        VatCategory::OutOfScope => (Groups::ExactlyOne, RateRule::Absent, TaxRule::Zero),
        VatCategory::SplitPayment => (Groups::AtLeastOne, RateRule::ZeroOrPositive, TaxRule::Derived),
    };
    CategoryProfile { category, groups, rate, tax }
}

/// Whether a category keys its tax breakdown rows on the rate under a profile.
pub open spec fn keyed_on_rate(p: Profile, c: Seq<char>) -> bool {
    if p == Profile::PintMy {
        c == "SA"@ || c == "SE"@ || c == "HVG"@ || c == "LVG"@ || c == "sa"@ || c == "se"@ || c
            == "hvg"@ || c == "lvg"@
    } else {
        match category_for_code(c) {
            Some(v) => family(v).groups == Groups::AtLeastOne,
            None => !(c == "O"@ || c == "Z"@ || c == "E"@ || c == "ZR"@ || c == "o"@ || c == "z"@
                || c == "e"@ || c == "zr"@),
        }
    }
}

/// Which categories key tax breakdown rows on the rate; shared with reconciliation.
pub fn grouped_by_rate(profile_id: Profile, category: &str) -> (r: bool)
    ensures
        r == keyed_on_rate(profile_id, category@),
{
    if profile_id == Profile::PintMy {
        return str_eq(category, "SA") || str_eq(category, "SE") || str_eq(category, "HVG")
            || str_eq(category, "LVG") || str_eq(category, "sa") || str_eq(category, "se")
            || str_eq(category, "hvg") || str_eq(category, "lvg");
    }
    match VatCategory::parse(category) {
        Some(c) => profile(c).grouped_by_rate(),
        None => !(str_eq(category, "O") || str_eq(category, "Z") || str_eq(category, "E")
            || str_eq(category, "ZR") || str_eq(category, "o") || str_eq(category, "z")
            || str_eq(category, "e") || str_eq(category, "zr")),
    }
}

/// PINT GST category subset: `S`, `Z`, `AA`, `O`, `SR`, `ZR`.
pub open spec fn is_pint_gst_category(c: Seq<char>) -> bool {
    c == "S"@ || c == "Z"@ || c == "AA"@ || c == "O"@ || c == "SR"@
}

/// PINT GST category subset (exact codes).
pub fn pint_gst_category(code: &str) -> (r: bool)
    ensures
        r == is_pint_gst_category(code@),
{
    str_eq(code, "S") || str_eq(code, "Z") || str_eq(code, "AA") || str_eq(code, "O") || str_eq(code, "SR")
}

} // verus!
