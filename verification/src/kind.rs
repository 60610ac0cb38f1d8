//! Syntax root [`DocumentKind`]. Not derived from the type code.
use vstd::prelude::*;

verus! {

/// Syntax root. Self-billing is a profile plus a type code, not a third kind.
#[derive(Debug, Clone, Copy, PartialEq, Eq, Hash, Structural)]
pub enum DocumentKind {
    /// UBL `Invoice`, or CII billed as an invoice. The default.
    Invoice,
    /// UBL `CreditNote` root. Never inferred from type code `381`.
    CreditNote,
}

impl Default for DocumentKind {
    fn default() -> (r: DocumentKind)
        ensures
            r == DocumentKind::Invoice,
    {
        DocumentKind::Invoice
    }
}

} // verus!
