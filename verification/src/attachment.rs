//! Embedded binary objects with a mandatory MIME code and filename.
use vstd::prelude::*;
use crate::error::AttachmentError;
use crate::text::{blank, is_blank, owned, str_eq};

verus! {

/// Bytes, MIME code and filename. Neither text may be blank.
#[derive(Debug, Clone, PartialEq, Eq)]
pub struct Attachment {
    pub bytes: Vec<u8>,
    pub mime: String,
    pub filename: String,
}

/// MIME codes every receiver must accept.
pub open spec fn receiver_must_accept(m: Seq<char>) -> bool {
    ||| m == "application/pdf"@
    ||| m == "image/png"@
    ||| m == "image/jpeg"@
    ||| m == "text/csv"@
    ||| m == "application/vnd.openxmlformats-officedocument.spreadsheetml.sheet"@
    ||| m == "application/vnd.oasis.opendocument.spreadsheet"@
}

impl Attachment {
    /// An attachment; a blank MIME code or filename is refused (the MIME
    /// code is checked first). The texts are kept as given.
    pub fn new(bytes: Vec<u8>, mime: &str, filename: &str) -> (r: Result<
        Attachment,
        AttachmentError,
    >)
        ensures
            blank(mime@) ==> r == Err::<Attachment, AttachmentError>(AttachmentError::EmptyMime),
            !blank(mime@) && blank(filename@) ==> r == Err::<Attachment, AttachmentError>(
                AttachmentError::EmptyFilename,
            ),
            !blank(mime@) && !blank(filename@) ==> r is Ok && r->Ok_0.bytes@ == bytes@
                && r->Ok_0.mime@ == mime@ && r->Ok_0.filename@ == filename@,
    {
        if is_blank(mime) {
            return Err(AttachmentError::EmptyMime);
        }
        if is_blank(filename) {
            return Err(AttachmentError::EmptyFilename);
        }
        Ok(Attachment { bytes, mime: owned(mime), filename: owned(filename) })
    }

    /// The MIME code is one every receiver must accept.
    pub fn is_universally_accepted(&self) -> (r: bool)
        ensures
            r == receiver_must_accept(self.mime@),
    {
        let m = self.mime.as_str();
        str_eq(m, "application/pdf") || str_eq(m, "image/png") || str_eq(m, "image/jpeg")
            || str_eq(m, "text/csv") || str_eq(
            m,
            "application/vnd.openxmlformats-officedocument.spreadsheetml.sheet",
        ) || str_eq(m, "application/vnd.oasis.opendocument.spreadsheet")
    }
}

} // verus!
