//! Verbatim [`Code`]. List membership is a rule, not a constructor.
use vstd::prelude::*;
use crate::text::{blank, is_blank, owned};

verus! {

/// A code exactly as written. Membership in a code list is checked by the
/// rules, never by this type.
#[derive(Debug, Clone, PartialEq, Eq, Hash)]
pub struct Code(String);

impl View for Code {
    type V = Seq<char>;

    closed spec fn view(&self) -> Seq<char> {
        self.0@
    }
}

impl Code {
    /// The code as written; no list check.
    pub fn new(value: &str) -> (r: Code)
        ensures
            r@ == value@,
    {
        Code(owned(value))
    }

    /// The code as written.
    pub fn as_str(&self) -> (r: &str)
        ensures
            r@ == self@,
    {
        self.0.as_str()
    }

    /// Empty or whitespace only.
    pub fn is_empty(&self) -> (r: bool)
        ensures
            r == blank(self@),
    {
        is_blank(self.0.as_str())
    }
}

} // verus!
