//! Profiles at the type level, and the builder that records suppressed rules.
use vstd::prelude::*;
use crate::invoice::Invoice;
use crate::profile::{Profile, profile_spec_id};
use crate::report::{Report, no_fatal};
use crate::text::owned;
use crate::validate::{validate, validation_of};
use core::marker::PhantomData;

verus! {

/// A profile at the type level.
pub trait ProfileMarker {
    /// The profile this marker stands for.
    spec fn marked() -> Profile;

    /// The profile this marker stands for.
    fn profile() -> (r: Profile)
        ensures
            r == Self::marked();
}

/// EN 16931 core.
#[derive(Debug, Clone, Copy, PartialEq, Eq)]
pub struct En16931;

/// Peppol BIS Billing 3.0.
#[derive(Debug, Clone, Copy, PartialEq, Eq)]
pub struct PeppolBis3;

/// Peppol International.
#[derive(Debug, Clone, Copy, PartialEq, Eq)]
pub struct Pint;

/// PINT-MY.
#[derive(Debug, Clone, Copy, PartialEq, Eq)]
pub struct PintMy;

impl ProfileMarker for En16931 {
    open spec fn marked() -> Profile {
        Profile::En16931
    }

    fn profile() -> (r: Profile) {
        Profile::En16931
    }
}

impl ProfileMarker for PeppolBis3 {
    open spec fn marked() -> Profile {
        Profile::PeppolBis3
    }

    fn profile() -> (r: Profile) {
        Profile::PeppolBis3
    }
}

impl ProfileMarker for Pint {
    open spec fn marked() -> Profile {
        Profile::Pint
    }

    fn profile() -> (r: Profile) {
        Profile::Pint
    }
}

impl ProfileMarker for PintMy {
    open spec fn marked() -> Profile {
        Profile::PintMy
    }

    fn profile() -> (r: Profile) {
        Profile::PintMy
    }
}

/// `Q: Underlies<P>`: every document valid under `P` is valid under `Q`.
/// Only Peppol BIS (a CIUS of EN 16931) widens to EN 16931; PINT is not a CIUS.
pub trait Underlies<P: ProfileMarker>: ProfileMarker {

}

impl Underlies<PeppolBis3> for En16931 {

}

/// An invoice that validated without a fatal finding under the profile of
/// `P`, its profile and BT-24 set to `P`'s. Only [`Validated::new`]
/// makes one.
#[derive(Debug)]
pub struct Validated<P: ProfileMarker> {
    invoice: Invoice,
    marker: PhantomData<P>,
}

/// `after` is `before` set to the profile for proving: the profile set, BT-24
/// the profile's own (a leftover identifier of another profile does not
/// survive), every other field, BT-23 among them, as it was.
pub open spec fn proved_from(after: Invoice, before: Invoice, profile: Profile) -> bool {
    &&& after == (Invoice { profile: after.profile, specification_id: after.specification_id, ..before })
    &&& after.profile == profile
    &&& after.specification_id matches Some(s) && s@ == profile_spec_id(profile)
}

/// The invoice passed validation: some validation report of it has no
/// fatal finding.
pub open spec fn passed(inv: Invoice) -> bool {
    exists|rep: Report| validation_of(inv, rep) && #[trigger] no_fatal(rep.findings@)
}

impl<P: ProfileMarker> Validated<P> {
    /// The validated invoice.
    pub closed spec fn inner(self) -> Invoice {
        self.invoice
    }

    /// Only an invoice that passed validation is held.
    #[verifier::type_invariant]
    spec fn holds_validated(self) -> bool {
        passed(self.invoice)
    }

    /// Validate the invoice under `P`: set `P`'s profile and its BT-24 on it
    /// (BT-24 comes from the proved profile, not from a leftover field; BT-23
    /// is left as given), and keep it only when the report has no fatal
    /// finding; otherwise hand back the invoice and the report.
    pub fn new(invoice: Invoice) -> (r: Result<Validated<P>, (Invoice, Report)>)
        ensures
            match r {
                Ok(v) => proved_from(v.inner(), invoice, P::marked()) && passed(v.inner()),
                Err((i, rep)) => proved_from(i, invoice, P::marked()) && validation_of(i, rep) && !no_fatal(rep.findings@),
            },
            match r {
                Ok(v) => v.inner().profile == P::marked() && v.inner().specification_id is Some
                    && v.inner().number == invoice.number && v.inner().lines == invoice.lines,
                Err((i, rep)) => i.profile == P::marked() && !no_fatal(rep.findings@)
                    && rep.profile_slug@ == crate::profile::profile_slug(P::marked()),
            },
    {
        let mut invoice = invoice;
        let p = P::profile();
        invoice.profile = p;
        invoice.specification_id = Some(owned(p.specification_id()));
        let report = validate(&invoice);
        if report.ok() {
            proof {
                assert(no_fatal(report.findings@));
                assert(passed(invoice));
            }
            Ok(Validated { invoice, marker: PhantomData })
        } else {
            Err((invoice, report))
        }
    }

    /// The validated invoice.
    pub fn invoice(&self) -> (r: &Invoice)
        ensures
            *r == self.inner(),
            passed(*r),
    {
        proof {
            use_type_invariant(self);
        }
        &self.invoice
    }

    /// The validated invoice, taken out.
    pub fn into_inner(self) -> (r: Invoice)
        ensures
            r == self.inner(),
            passed(r),
    {
        proof {
            use_type_invariant(&self);
        }
        self.invoice
    }

    /// Re-badge as a less restrictive profile (only Peppol BIS 3 to EN 16931).
    pub fn widen<Q: Underlies<P>>(self) -> (r: Validated<Q>)
        ensures
            r.inner() == self.inner(),
    {
        proof {
            use_type_invariant(&self);
        }
        Validated { invoice: self.invoice, marker: PhantomData }
    }
}

/// Why a proof was not produced.
#[derive(Debug, Clone, PartialEq)]
pub enum ProveError {
    /// The invoice failed validation.
    Rejected(Report),
    /// A rule was suppressed; no proof is minted.
    Suppressed(String),
}

impl ProveError {
    /// Display text.
    pub fn to_string(&self) -> (r: String)
        ensures
            self matches ProveError::Suppressed(id) ==> r@ == "cannot prove a profile after suppressing "@
                + id@,
    {
        match self {
            ProveError::Rejected(rep) => {
                let mut s = owned("invoice failed ");
                let t = rep.to_string();
                s.append(t.as_str());
                s
            },
            ProveError::Suppressed(id) => {
                let mut s = owned("cannot prove a profile after suppressing ");
                s.append(id.as_str());
                s
            },
        }
    }
}

/// Builder that records suppressed rule ids. A proof must see every fatal
/// finding, so proving fails once any id was suppressed.
#[derive(Debug, Clone)]
pub struct Check {
    suppressed: Vec<String>,
}

impl Check {
    /// The suppressed ids, in order.
    pub closed spec fn ids(self) -> Seq<Seq<char>> {
        Seq::new(self.suppressed@.len(), |i: int| self.suppressed@[i]@)
    }

    /// Nothing suppressed.
    pub fn new() -> (r: Check)
        ensures
            r.ids().len() == 0,
    {
        Check { suppressed: Vec::new() }
    }

    /// Records one more suppressed id.
    pub fn without(self, id: &str) -> (r: Check)
        ensures
            r.ids() == self.ids().push(id@),
    {
        let mut c = self;
        c.suppressed.push(owned(id));
        assert(c.ids() =~= self.ids().push(id@));
        c
    }

    /// Prove the invoice under `P`: refused when any rule was suppressed,
    /// else [`Validated::new`].
    pub fn prove<P: ProfileMarker>(self, invoice: Invoice) -> (r: Result<Validated<P>, ProveError>)
        ensures
            self.ids().len() > 0 ==> (r matches Err(ProveError::Suppressed(id)) && id@ == self.ids()[0]),
            self.ids().len() == 0 ==> match r {
                Ok(v) => v.inner().profile == P::marked(),
                Err(ProveError::Rejected(rep)) => !no_fatal(rep.findings@),
                Err(ProveError::Suppressed(_)) => false,
            },
    {
        if let Some(id) = self.first_suppressed() {
            return Err(ProveError::Suppressed(id));
        }
        match Validated::<P>::new(invoice) {
            Ok(v) => Ok(v),
            Err(rejected) => Err(ProveError::Rejected(rejected.1)),
        }
    }

    /// The first suppressed id, if any.
    pub fn first_suppressed(&self) -> (r: Option<String>)
        ensures
            self.ids().len() == 0 ==> r is None,
            self.ids().len() > 0 ==> (r matches Some(s) && s@ == self.ids()[0]),
    {
        if self.suppressed.len() == 0 {
            None
        } else {
            Some(owned(self.suppressed[0].as_str()))
        }
    }
}

impl Default for Check {
    fn default() -> (r: Check)
        ensures
            r.ids().len() == 0,
    {
        Check::new()
    }
}

} // verus!
