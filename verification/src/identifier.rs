//! Identifiers with an optional scheme, and plain document references.
use vstd::prelude::*;
use crate::text::owned;

verus! {

/// Identifier content with an optional scheme and scheme version. Scheme
/// lists are profile-scoped; this type does not require one.
#[derive(Debug, Clone, PartialEq, Eq, Hash)]
pub struct Identifier {
    pub value: String,
    pub scheme: Option<String>,
    pub scheme_version: Option<String>,
}

impl Identifier {
    /// Identifier without a scheme.
    pub fn new(value: &str) -> (r: Identifier)
        ensures
            r.value@ == value@,
            r.scheme is None,
            r.scheme_version is None,
    {
        Identifier { value: owned(value), scheme: None, scheme_version: None }
    }

    /// Identifier with a scheme.
    pub fn schemed(value: &str, scheme: &str) -> (r: Identifier)
        ensures
            r.value@ == value@,
            r.scheme is Some && r.scheme->0@ == scheme@,
            r.scheme_version is None,
    {
        Identifier { value: owned(value), scheme: Some(owned(scheme)), scheme_version: None }
    }

    /// Identifier with a scheme and a scheme version.
    pub fn with_version(value: &str, scheme: &str, version: &str) -> (r: Identifier)
        ensures
            r.value@ == value@,
            r.scheme is Some && r.scheme->0@ == scheme@,
            r.scheme_version is Some && r.scheme_version->0@ == version@,
    {
        Identifier {
            value: owned(value),
            scheme: Some(owned(scheme)),
            scheme_version: Some(owned(version)),
        }
    }
}

/// Document reference (order, contract, preceding invoice). No scheme.
#[derive(Debug, Clone, PartialEq, Eq, Hash)]
pub struct DocumentReference(pub String);

impl DocumentReference {
    /// Reference as written.
    pub fn new(value: &str) -> (r: DocumentReference)
        ensures
            r.0@ == value@,
    {
        DocumentReference(owned(value))
    }

    /// Reference as written.
    pub fn as_str(&self) -> (r: &str)
        ensures
            r@ == self.0@,
    {
        self.0.as_str()
    }
}

} // verus!
