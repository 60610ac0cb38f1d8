//! Construction errors for amounts, dates, and attachments.
use vstd::prelude::*;

verus! {

/// Error constructing an [`crate::amount::InvoiceAmount`].
#[derive(Debug, Clone, Copy, PartialEq, Eq)]
pub enum AmountError {
    /// More than two fraction digits. The type never rounds.
    TooManyDecimals,
    /// Decimal overflow.
    Overflow,
}

impl AmountError {
    /// Human-readable text.
    pub fn message(&self) -> (r: &'static str)
        ensures
            *self is TooManyDecimals ==> r@ == "amount has more than two fraction digits"@,
            *self is Overflow ==> r@ == "amount overflow"@,
    {
        match self {
            AmountError::TooManyDecimals => "amount has more than two fraction digits",
            AmountError::Overflow => "amount overflow",
        }
    }
}

/// Error constructing a [`crate::date::Date`].
#[derive(Debug, Clone, Copy, PartialEq, Eq)]
pub enum DateError {
    /// Not a calendar day `YYYY-MM-DD` (no time, no zone).
    Invalid,
}

impl DateError {
    /// Human-readable text.
    pub fn message(&self) -> (r: &'static str)
        ensures
            r@ == "not an EN 16931 calendar date (YYYY-MM-DD, no time)"@,
    {
        "not an EN 16931 calendar date (YYYY-MM-DD, no time)"
    }
}

/// Error constructing an [`crate::attachment::Attachment`].
#[derive(Debug, Clone, Copy, PartialEq, Eq)]
pub enum AttachmentError {
    /// MIME code is empty or whitespace.
    EmptyMime,
    /// Filename is empty or whitespace.
    EmptyFilename,
}

impl AttachmentError {
    /// Human-readable text.
    pub fn message(&self) -> (r: &'static str)
        ensures
            *self is EmptyMime ==> r@ == "attachment mime code shall be present"@,
            *self is EmptyFilename ==> r@ == "attachment filename shall be present"@,
    {
        match self {
            AttachmentError::EmptyMime => "attachment mime code shall be present",
            AttachmentError::EmptyFilename => "attachment filename shall be present",
        }
    }
}

} // verus!
