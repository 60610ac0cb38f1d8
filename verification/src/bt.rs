//! Finding locations: [`BtId`], [`Group`], [`Path`]. Group indexes are 0-based.
use vstd::prelude::*;
use crate::dec::digits;
use crate::text::{string_from_chars, u64_digits};

verus! {

/// Business term id (`BT-151`): a finding location, not a typed field.
#[derive(Debug, Clone, Copy, PartialEq, Eq, PartialOrd, Ord, Hash, Structural)]
pub struct BtId(
    /// Numeric suffix (`151` in `BT-151`).
    pub u16,
);

/// Repeating or distinguishable groups.
#[derive(Debug, Clone, Copy, PartialEq, Eq, PartialOrd, Ord, Hash, Structural)]
pub enum Group {
    /// Invoice root; no group number.
    Document,
    /// Seller (BG-4).
    Seller,
    /// Buyer (BG-7).
    Buyer,
    /// Payee (BG-10).
    Payee,
    /// Seller tax representative (BG-11).
    TaxRepresentative,
    /// Delivery (BG-13).
    Delivery,
    /// Payment instructions (BG-16).
    Payment,
    /// Document level allowance (BG-20).
    DocumentAllowance,
    /// Document level charge (BG-21).
    DocumentCharge,
    /// Document totals (BG-22).
    Totals,
    /// Tax breakdown (BG-23).
    TaxBreakdown,
    /// Additional supporting document (BG-24).
    Attachment,
    /// Invoice line (BG-25).
    Line,
}

/// Group number of each group; the document root has none.
pub open spec fn group_number(g: Group) -> Option<u16> {
    match g {
        Group::Document => None,
        Group::Seller => Some(4),
        Group::Buyer => Some(7),
        Group::Payee => Some(10),
        Group::TaxRepresentative => Some(11),
        Group::Delivery => Some(13),
        Group::Payment => Some(16),
        Group::DocumentAllowance => Some(20),
        Group::DocumentCharge => Some(21),
        Group::Totals => Some(22),
        Group::TaxBreakdown => Some(23),
        Group::Attachment => Some(24),
        Group::Line => Some(25),
    }
}

impl Group {
    /// Group number, or `None` for the document root.
    pub fn bg_id(self) -> (r: Option<u16>)
        ensures
            r == group_number(self),
    {
        match self {
            Group::Document => None,
            Group::Seller => Some(4),
            Group::Buyer => Some(7),
            Group::Payee => Some(10),
            Group::TaxRepresentative => Some(11),
            Group::Delivery => Some(13),
            Group::Payment => Some(16),
            Group::DocumentAllowance => Some(20),
            Group::DocumentCharge => Some(21),
            Group::Totals => Some(22),
            Group::TaxBreakdown => Some(23),
            Group::Attachment => Some(24),
            Group::Line => Some(25),
        }
    }
}

/// Finding location: group, optional 0-based index, optional term.
#[derive(Debug, Clone, Copy, PartialEq, Eq, Hash, Structural)]
pub struct Path {
    /// Repeating or distinguishable group.
    pub group: Group,
    /// 0-based occurrence; `None` if the group is unindexed.
    pub index: Option<usize>,
    /// Business term, if the finding is on one.
    pub term: Option<BtId>,
}

/// `BT-n`.
pub open spec fn bt_text(t: BtId) -> Seq<char> {
    "BT-"@ + digits(t.0 as nat)
}

/// `BG-n`.
pub open spec fn bg_text(n: u16) -> Seq<char> {
    "BG-"@ + digits(n as nat)
}

/// `[i]`.
pub open spec fn index_text(i: usize) -> Seq<char> {
    seq!['['] + digits(i as nat) + seq![']']
}

/// Display text of a path: `BT-1`, `Invoice`, `BG-22`, `BG-25[2]`,
/// `BG-22/BT-109`, `BG-25[2]/BT-151`.
pub open spec fn path_text(p: Path) -> Seq<char> {
    match group_number(p.group) {
        None => match p.term {
            Some(t) => bt_text(t),
            None => "Invoice"@,
        },
        Some(bg) => {
            let head = match p.index {
                None => bg_text(bg),
                Some(i) => bg_text(bg) + index_text(i),
            };
            match p.term {
                None => head,
                Some(t) => head + seq!['/'] + bt_text(t),
            }
        },
    }
}

fn push_all(v: &mut Vec<char>, w: &[char])
    ensures
        final(v)@ == old(v)@ + w@,
{
    let mut i: usize = 0;
    while i < w.len()
        invariant
            i <= w.len(),
            v@ == old(v)@ + w@.take(i as int),
        decreases w.len() - i,
    {
        v.push(w[i]);
        assert(w@.take(i + 1) =~= w@.take(i as int).push(w@[i as int]));
        i = i + 1;
    }
    assert(w@.take(w.len() as int) =~= w@);
}

fn push_prefixed(v: &mut Vec<char>, a: char, b: char, n: u64)
    ensures
        final(v)@ == old(v)@ + seq![a, b, '-'] + digits(n as nat),
{
    v.push(a);
    v.push(b);
    v.push('-');
    let d = u64_digits(n);
    push_all(v, d.as_slice());
    assert(final(v)@ =~= old(v)@ + seq![a, b, '-'] + digits(n as nat));
}

impl BtId {
    /// Display text `BT-n`.
    pub fn to_string(&self) -> (r: String)
        ensures
            r@ == bt_text(*self),
    {
        let mut v: Vec<char> = Vec::new();
        push_prefixed(&mut v, 'B', 'T', self.0 as u64);
        proof {
            reveal_strlit("BT-");
            assert(v@ =~= bt_text(*self));
        }
        string_from_chars(v.as_slice())
    }
}

impl Path {
    /// Document-level term (`BT-1`).
    pub fn term(term: BtId) -> (r: Path)
        ensures
            r == (Path { group: Group::Document, index: None, term: Some(term) }),
    {
        Path { group: Group::Document, index: None, term: Some(term) }
    }

    /// Repeating group at a 0-based index, plus term (`BG-25[2]/BT-151`).
    pub fn at_term(group: Group, index: usize, term: BtId) -> (r: Path)
        ensures
            r == (Path { group, index: Some(index), term: Some(term) }),
    {
        Path { group, index: Some(index), term: Some(term) }
    }

    /// Whole group, no term (`BG-22`).
    pub fn group(group: Group) -> (r: Path)
        ensures
            r == (Path { group, index: None, term: None }),
    {
        Path { group, index: None, term: None }
    }

    /// Group plus term, no index (`BG-22/BT-109`).
    pub fn group_term(group: Group, term: BtId) -> (r: Path)
        ensures
            r == (Path { group, index: None, term: Some(term) }),
    {
        Path { group, index: None, term: Some(term) }
    }

    /// Display text, see [`path_text`].
    pub fn to_string(&self) -> (r: String)
        ensures
            r@ == path_text(*self),
    {
        let mut v: Vec<char> = Vec::new();
        proof {
            reveal_strlit("BT-");
            reveal_strlit("BG-");
            reveal_strlit("Invoice");
        }
        match self.group.bg_id() {
            None => {
                match self.term {
                    Some(t) => {
                        push_prefixed(&mut v, 'B', 'T', t.0 as u64);
                    },
                    None => {
                        return crate::text::owned("Invoice");
                    },
                }
            },
            Some(bg) => {
                push_prefixed(&mut v, 'B', 'G', bg as u64);
                match self.index {
                    None => {},
                    Some(i) => {
                        v.push('[');
                        let d = u64_digits(i as u64);
                        push_all(&mut v, d.as_slice());
                        v.push(']');
                    },
                }
                match self.term {
                    None => {},
                    Some(t) => {
                        v.push('/');
                        push_prefixed(&mut v, 'B', 'T', t.0 as u64);
                    },
                }
            },
        }
        assert(v@ =~= path_text(*self));
        string_from_chars(v.as_slice())
    }
}

} // verus!
