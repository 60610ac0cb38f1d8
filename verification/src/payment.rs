//! Exclusive payment means: credit transfer, card, or direct debit.
use vstd::prelude::*;
use crate::identifier::Identifier;

verus! {

/// Credit transfer: account id (IBAN), account name, provider (BIC).
#[derive(Debug, Clone, PartialEq, Eq)]
pub struct CreditTransfer {
    /// Payment account identifier (IBAN).
    pub account_id: Identifier,
    /// Payment account name.
    pub account_name: Option<String>,
    /// Payment service provider identifier (BIC).
    pub provider: Option<String>,
}

/// Payment card: primary account number and holder.
#[derive(Debug, Clone, PartialEq, Eq)]
pub struct PaymentCard {
    /// Primary account number.
    pub pan: String,
    /// Card holder name.
    pub holder: Option<String>,
}

/// Direct debit: mandate, creditor id, debited account.
#[derive(Debug, Clone, PartialEq, Eq)]
pub struct DirectDebit {
    /// Mandate reference identifier.
    pub mandate: Option<String>,
    /// Bank assigned creditor identifier.
    pub creditor_id: Option<Identifier>,
    /// Debited account identifier.
    pub debited_account: Option<Identifier>,
}

/// Credit transfer xor card xor direct debit. Several IBANs are several
/// credit-transfer accounts.
#[derive(Debug, Clone, PartialEq, Eq)]
pub enum PaymentMeans {
    /// Credit transfer to one or more accounts.
    CreditTransfer(Vec<CreditTransfer>),
    /// Payment card.
    Card(PaymentCard),
    /// Direct debit.
    DirectDebit(DirectDebit),
}

} // verus!
