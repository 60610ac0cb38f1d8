//! Tax system and category. SST lives in memory only; [`wire_scheme`] never
//! writes TaxScheme `SST`.
use vstd::prelude::*;
use crate::numeric::Percentage;
use crate::profile::Profile;
use crate::text::{eq_ic, owned, str_eq, str_eq_ic, trim, trim_str};

verus! {

/// Tax system on the invoice.
#[derive(Debug, Clone, Copy, PartialEq, Eq, PartialOrd, Ord, Hash, Structural)]
pub enum TaxSystem {
    /// VAT (TaxScheme `VAT`).
    Vat,
    /// GST. Wire TaxScheme `GST` on PINT, not on PINT-MY.
    Gst,
    /// SST in memory. Never TaxScheme `SST` on the wire.
    Sst,
    /// Consumption tax.
    Consumption,
}

/// Canonical name of a tax system.
pub open spec fn system_name(s: TaxSystem) -> Seq<char> {
    match s {
        TaxSystem::Vat => "VAT"@,
        TaxSystem::Gst => "GST"@,
        TaxSystem::Sst => "SST"@,
        TaxSystem::Consumption => "CONSUMPTION"@,
    }
}

/// The tax system a name stands for, ignoring surrounding whitespace and
/// ASCII case. `VAT/CGST` is not VAT.
pub open spec fn system_for_name(s: Seq<char>) -> Option<TaxSystem> {
    let t = trim(s);
    if eq_ic(t, "VAT"@) {
        Some(TaxSystem::Vat)
    } else if eq_ic(t, "GST"@) {
        Some(TaxSystem::Gst)
    } else if eq_ic(t, "SST"@) || eq_ic(t, "SALES"@) || eq_ic(t, "SERVICE"@) {
        Some(TaxSystem::Sst)
    } else if eq_ic(t, "CONSUMPTION"@) || eq_ic(t, "CT"@) {
        Some(TaxSystem::Consumption)
    } else {
        None
    }
}

impl TaxSystem {
    /// Canonical name (`VAT`, `GST`, `SST`, `CONSUMPTION`).
    pub fn as_str(self) -> (r: &'static str)
        ensures
            r@ == system_name(self),
    {
        match self {
            TaxSystem::Vat => "VAT",
            TaxSystem::Gst => "GST",
            TaxSystem::Sst => "SST",
            TaxSystem::Consumption => "CONSUMPTION",
        }
    }

    /// Parse a tax-system name.
    pub fn parse(s: &str) -> (r: Option<TaxSystem>)
        ensures
            r == system_for_name(s@),
    {
        let t = trim_str(s);
        if str_eq_ic(t, "VAT") {
            Some(TaxSystem::Vat)
        } else if str_eq_ic(t, "GST") {
            Some(TaxSystem::Gst)
        } else if str_eq_ic(t, "SST") || str_eq_ic(t, "SALES") || str_eq_ic(t, "SERVICE") {
            Some(TaxSystem::Sst)
        } else if str_eq_ic(t, "CONSUMPTION") || str_eq_ic(t, "CT") {
            Some(TaxSystem::Consumption)
        } else {
            None
        }
    }
}

/// A tax category on a line or breakdown: system, code and rate.
///
/// `percent` is `None` when the family has no rate (EN `O`, PINT-MY `TTX`).
/// Zero is a stated 0 %, not an absent rate.
#[derive(Debug, Clone, PartialEq)]
pub struct TaxCategory {
    /// In-memory tax system.
    pub system: TaxSystem,
    /// Category code, kept as text so that PINT extra codes stay representable.
    pub code: String,
    /// Rate, or `None` when the family has none.
    pub percent: Option<Percentage>,
}

impl TaxCategory {
    /// VAT category with a stated rate.
    pub fn vat(code: &str, percent: Percentage) -> (r: TaxCategory)
        ensures
            r.system == TaxSystem::Vat,
            r.code@ == code@,
            r.percent == Some(percent),
    {
        TaxCategory { system: TaxSystem::Vat, code: owned(code), percent: Some(percent) }
    }

    /// SST category with a stated rate.
    pub fn sst(code: &str, percent: Percentage) -> (r: TaxCategory)
        ensures
            r.system == TaxSystem::Sst,
            r.code@ == code@,
            r.percent == Some(percent),
    {
        TaxCategory { system: TaxSystem::Sst, code: owned(code), percent: Some(percent) }
    }

    /// GST category with a stated rate.
    pub fn gst(code: &str, percent: Percentage) -> (r: TaxCategory)
        ensures
            r.system == TaxSystem::Gst,
            r.code@ == code@,
            r.percent == Some(percent),
    {
        TaxCategory { system: TaxSystem::Gst, code: owned(code), percent: Some(percent) }
    }

    /// EN / PINT `O`: no rate.
    pub fn out_of_scope() -> (r: TaxCategory)
        ensures
            r.system == TaxSystem::Vat,
            r.code@ == "O"@,
            r.percent is None,
    {
        TaxCategory { system: TaxSystem::Vat, code: owned("O"), percent: None }
    }

    /// PINT-MY `TTX`: amount only, no rate.
    pub fn ttx() -> (r: TaxCategory)
        ensures
            r.system == TaxSystem::Sst,
            r.code@ == "TTX"@,
            r.percent is None,
    {
        TaxCategory { system: TaxSystem::Sst, code: owned("TTX"), percent: None }
    }
}

/// TaxScheme id written for a category under a profile.
pub open spec fn wire_scheme_of(profile: Profile, system: TaxSystem, category: Seq<char>) -> Seq<
    char,
> {
    match profile {
        Profile::En16931 | Profile::PeppolBis3 => "VAT"@,
        Profile::PintMy => if eq_ic(category, "TTX"@) {
            "AAL"@
        } else {
            "VAT"@
        },
        Profile::Pint => if system == TaxSystem::Gst {
            "GST"@
        } else {
            "VAT"@
        },
        Profile::Unknown => "VAT"@,
    }
}

/// TaxScheme id on the wire. Never `SST`.
pub fn wire_scheme(profile: Profile, system: TaxSystem, category: &str) -> (r: &'static str)
    ensures
        r@ == wire_scheme_of(profile, system, category@),
{
    match profile {
        Profile::En16931 | Profile::PeppolBis3 => "VAT",
        Profile::PintMy => {
            if str_eq_ic(category, "TTX") {
                "AAL"
            } else {
                "VAT"
            }
        },
        Profile::Pint => {
            match system {
                TaxSystem::Gst => "GST",
                _ => "VAT",
            }
        },
        Profile::Unknown => "VAT",
    }
}

/// PINT-MY category codes.
pub open spec fn is_pint_my_category(code: Seq<char>) -> bool {
    ||| code == "SA"@
    ||| code == "SE"@
    ||| code == "HVG"@
    ||| code == "LVG"@
    ||| code == "TTX"@
    ||| code == "E"@
    ||| code == "O"@
}

/// PINT-MY category codes: `SA`, `SE`, `HVG`, `LVG`, `TTX`, `E`, `O` (exact).
pub fn pint_my_category(code: &str) -> (r: bool)
    ensures
        r == is_pint_my_category(code@),
{
    str_eq(code, "SA") || str_eq(code, "SE") || str_eq(code, "HVG") || str_eq(code, "LVG")
        || str_eq(code, "TTX") || str_eq(code, "E") || str_eq(code, "O")
}

/// The TaxScheme written is never `SST`, whatever the profile, system or category.
pub proof fn lemma_wire_scheme_never_sst(profile: Profile, system: TaxSystem, category: Seq<char>)
    ensures
        wire_scheme_of(profile, system, category) != "SST"@,
{
    reveal_strlit("SST");
    reveal_strlit("VAT");
    reveal_strlit("AAL");
    reveal_strlit("GST");
    assert("SST"@[0] != "VAT"@[0]);
    assert("SST"@[0] != "AAL"@[0]);
    assert("SST"@[0] != "GST"@[0]);
}

} // verus!
