//! Semantic model for the core electronic invoice: EN 16931 and Peppol PINT.
use vstd::prelude::*;

pub mod dec;
pub mod text;
pub mod error;
pub mod amount;
pub mod numeric;
pub mod arith;
pub mod code;
pub mod kind;
pub mod identifier;
pub mod attachment;
pub mod payment;
pub mod bt;
pub mod date;
pub mod tax;
pub mod profile;
pub mod report;
pub mod report_json;
pub mod emit;
pub mod checks;
pub mod item_checks;
pub mod total_checks;
pub mod family_checks;
pub mod reconcile;
pub mod my_checks;
pub mod code_checks;
pub mod peppol_checks;
pub mod validate;
pub mod rule_table;
pub mod rules;
pub mod category;
pub mod codes;
pub mod xrechnung;
pub mod invoice;
pub mod model_eq;
pub mod profile_proof;
pub mod formats;
pub mod fixtures;

pub use amount::InvoiceAmount as Amount;
pub use bt::{BtId, Group, Path};
pub use codes::currency as is_currency;
pub use invoice::{Invoice, Line, Party};
pub use profile::Profile;
pub use report::{Finding, Report, Severity};
pub use rules::{catalogue, conformance_matrix, explain, matches_id};
pub use tax::{TaxCategory, TaxSystem};
pub use validate::validate;
pub use reconcile::{reconcile, Reconciler};

verus! {
} // verus!
