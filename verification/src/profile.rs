//! Usage specification (BT-24). Peppol BIS and PINT are siblings, not a ladder.
use vstd::prelude::*;
use crate::tax::TaxSystem;
use crate::text::{contains, eq_ic, starts_with, str_contains, str_eq_ic, str_starts_with, trim, trim_str};

verus! {

/// Usage specification (BT-24).
#[derive(Debug, Clone, Copy, PartialEq, Eq, Hash, Structural)]
pub enum Profile {
    /// CEN EN 16931-1 core.
    En16931,
    /// Peppol BIS Billing 3.0 (EU VAT CIUS).
    PeppolBis3,
    /// Peppol International base (tax is not only VAT).
    Pint,
    /// PINT-MY specialisation (SST, TIN/BRN schemes).
    PintMy,
    /// A specification id this library does not recognise. Never written.
    Unknown,
}

/// What a specification identifier (BT-24) names.
#[derive(Debug, Clone, Copy, PartialEq, Eq, Structural)]
pub enum ProfileLookup {
    /// A billing profile.
    Profile(Profile),
    /// A self-billing (or other) process, not billing.
    WrongProcess,
    /// Not recognised.
    Unknown,
}

/// Start of every Peppol BIS Billing 3.0 specification identifier.
pub const PEPPOL_BIS3_PREFIX: &'static str = "urn:cen.eu:en16931:2017#compliant#urn:fdc:peppol.eu:2017:poacc:billing:3.0";

/// What a specification identifier names, after trimming: a self-billing
/// process is the wrong process; otherwise the longest matching prefix picks
/// the profile.
pub open spec fn lookup_spec_id(id: Seq<char>) -> ProfileLookup {
    let t = trim(id);
    if contains(t, "selfbilling"@) {
        ProfileLookup::WrongProcess
    } else if starts_with(t, "urn:peppol:pint:billing-1@my-1"@) {
        ProfileLookup::Profile(Profile::PintMy)
    } else if starts_with(t, "urn:peppol:pint:billing-1"@) {
        ProfileLookup::Profile(Profile::Pint)
    } else if starts_with(t, PEPPOL_BIS3_PREFIX@) {
        ProfileLookup::Profile(Profile::PeppolBis3)
    } else if starts_with(t, "urn:cen.eu:en16931:2017"@) {
        ProfileLookup::Profile(Profile::En16931)
    } else {
        ProfileLookup::Unknown
    }
}

/// Short name of a profile.
pub open spec fn profile_slug(p: Profile) -> Seq<char> {
    match p {
        Profile::En16931 => "en16931"@,
        Profile::PeppolBis3 => "peppol"@,
        Profile::Pint => "pint"@,
        Profile::PintMy => "pint-my"@,
        Profile::Unknown => "unknown"@,
    }
}

/// The profile a name stands for, ignoring surrounding whitespace and ASCII case.
pub open spec fn profile_for_name(s: Seq<char>) -> Option<Profile> {
    let t = trim(s);
    if eq_ic(t, "en16931"@) || eq_ic(t, "en-16931"@) || eq_ic(t, "core"@) {
        Some(Profile::En16931)
    } else if eq_ic(t, "peppol"@) || eq_ic(t, "bis3"@) || eq_ic(t, "peppol-bis-3"@) {
        Some(Profile::PeppolBis3)
    } else if eq_ic(t, "pint"@) {
        Some(Profile::Pint)
    } else if eq_ic(t, "pint-my"@) || eq_ic(t, "pintmy"@) || eq_ic(t, "my"@) {
        Some(Profile::PintMy)
    } else {
        None
    }
}

/// Specification identifier written as BT-24.
pub open spec fn profile_spec_id(p: Profile) -> Seq<char> {
    match p {
        Profile::En16931 => "urn:cen.eu:en16931:2017"@,
        Profile::PeppolBis3 => "urn:cen.eu:en16931:2017#compliant#urn:fdc:peppol.eu:2017:poacc:billing:3.0"@,
        Profile::Pint => "urn:peppol:pint:billing-1"@,
        Profile::PintMy => "urn:peppol:pint:billing-1@my-1"@,
        Profile::Unknown => Seq::empty(),
    }
}

/// Business process type (BT-23) written for a profile: none on EN 16931.
pub open spec fn profile_process_id(p: Profile) -> Option<&'static str> {
    match p {
        Profile::En16931 => None,
        Profile::PeppolBis3 => Some("urn:fdc:peppol.eu:2017:poacc:billing:01:1.0"),
        Profile::Pint | Profile::PintMy => Some("urn:peppol:bis:billing"),
        Profile::Unknown => None,
    }
}

/// Tax systems a profile accepts, in order.
pub open spec fn profile_tax_systems(p: Profile) -> Seq<TaxSystem> {
    match p {
        Profile::En16931 | Profile::PeppolBis3 => seq![TaxSystem::Vat],
        Profile::Pint | Profile::PintMy => seq![
            TaxSystem::Vat,
            TaxSystem::Gst,
            TaxSystem::Sst,
            TaxSystem::Consumption,
        ],
        Profile::Unknown => Seq::empty(),
    }
}

impl Profile {
    /// Short name (`en16931`, `peppol`, `pint`, `pint-my`).
    pub fn slug(self) -> (r: &'static str)
        ensures
            r@ == profile_slug(self),
    {
        match self {
            Profile::En16931 => "en16931",
            Profile::PeppolBis3 => "peppol",
            Profile::Pint => "pint",
            Profile::PintMy => "pint-my",
            Profile::Unknown => "unknown",
        }
    }

    /// Parse a profile name.
    pub fn parse(s: &str) -> (r: Option<Profile>)
        ensures
            r == profile_for_name(s@),
    {
        let t = trim_str(s);
        if str_eq_ic(t, "en16931") || str_eq_ic(t, "en-16931") || str_eq_ic(t, "core") {
            Some(Profile::En16931)
        } else if str_eq_ic(t, "peppol") || str_eq_ic(t, "bis3") || str_eq_ic(t, "peppol-bis-3") {
            Some(Profile::PeppolBis3)
        } else if str_eq_ic(t, "pint") {
            Some(Profile::Pint)
        } else if str_eq_ic(t, "pint-my") || str_eq_ic(t, "pintmy") || str_eq_ic(t, "my") {
            Some(Profile::PintMy)
        } else {
            None
        }
    }

    /// Specification identifier (BT-24) of the profile.
    pub fn specification_id(self) -> (r: &'static str)
        ensures
            r@ == profile_spec_id(self),
    {
        match self {
            Profile::En16931 => "urn:cen.eu:en16931:2017",
            Profile::PeppolBis3 => "urn:cen.eu:en16931:2017#compliant#urn:fdc:peppol.eu:2017:poacc:billing:3.0",
            Profile::Pint => "urn:peppol:pint:billing-1",
            Profile::PintMy => "urn:peppol:pint:billing-1@my-1",
            Profile::Unknown => {
                proof {
                    reveal_strlit("");
                }
                ""
            },
        }
    }

    /// Business process type (BT-23) the profile writes, if it has one.
    pub fn process_id(self) -> (r: Option<&'static str>)
        ensures
            r == profile_process_id(self),
    {
        match self {
            Profile::En16931 => None,
            Profile::PeppolBis3 => Some("urn:fdc:peppol.eu:2017:poacc:billing:01:1.0"),
            Profile::Pint | Profile::PintMy => Some("urn:peppol:bis:billing"),
            Profile::Unknown => None,
        }
    }

    /// What a specification identifier (BT-24) names.
    pub fn for_specification_id(id: &str) -> (r: ProfileLookup)
        ensures
            r == lookup_spec_id(id@),
    {
        let t = trim_str(id);
        if str_contains(t, "selfbilling") {
            ProfileLookup::WrongProcess
        } else if str_starts_with(t, "urn:peppol:pint:billing-1@my-1") {
            ProfileLookup::Profile(Profile::PintMy)
        } else if str_starts_with(t, "urn:peppol:pint:billing-1") {
            ProfileLookup::Profile(Profile::Pint)
        } else if str_starts_with(t, PEPPOL_BIS3_PREFIX) {
            ProfileLookup::Profile(Profile::PeppolBis3)
        } else if str_starts_with(t, "urn:cen.eu:en16931:2017") {
            ProfileLookup::Profile(Profile::En16931)
        } else {
            ProfileLookup::Unknown
        }
    }

    /// Tax systems this profile accepts.
    pub fn tax_systems(self) -> (r: Vec<TaxSystem>)
        ensures
            r@ == profile_tax_systems(self),
    {
        match self {
            Profile::En16931 | Profile::PeppolBis3 => vec![TaxSystem::Vat],
            Profile::Pint | Profile::PintMy => vec![
                TaxSystem::Vat,
                TaxSystem::Gst,
                TaxSystem::Sst,
                TaxSystem::Consumption,
            ],
            Profile::Unknown => Vec::new(),
        }
    }

    /// The profile accepts the tax system.
    pub fn allows(self, system: TaxSystem) -> (r: bool)
        ensures
            r == profile_tax_systems(self).contains(system),
    {
        let v = self.tax_systems();
        let mut i: usize = 0;
        while i < v.len()
            invariant
                v@ == profile_tax_systems(self),
                i <= v.len(),
                forall|j: int| 0 <= j < i ==> v@[j] != system,
            decreases v.len() - i,
        {
            if v[i] == system {
                assert(v@[i as int] == system);
                return true;
            }
            i = i + 1;
        }
        false
    }
}

/// EN 16931 and Peppol BIS accept VAT only; PINT and PINT-MY accept every
/// tax system; an unknown profile accepts none.
pub proof fn lemma_allows(p: Profile, s: TaxSystem)
    ensures
        profile_tax_systems(p).contains(s) <==> (p != Profile::Unknown && (s == TaxSystem::Vat || p
            == Profile::Pint || p == Profile::PintMy)),
{
    let q = profile_tax_systems(p);
    if p == Profile::Unknown {
    } else if s == TaxSystem::Vat {
        assert(q[0] == s);
    } else if p == Profile::Pint || p == Profile::PintMy {
        match s {
            TaxSystem::Gst => assert(q[1] == s),
            TaxSystem::Sst => assert(q[2] == s),
            TaxSystem::Consumption => assert(q[3] == s),
            TaxSystem::Vat => {},
        }
    }
}

} // verus!
