# core_invoice

A library for EN 16931 electronic invoices: the invoice model, the business
rules of EN 16931 and its Peppol BIS 3, PINT and PINT-MY profiles, tax
reconciliation, and reading and writing UBL 2.1 and UN/CEFACT CII D16B.
The logic is written in Verus and proved against its contracts; decimal
arithmetic comes from `rust_decimal` and XML parsing from `roxmltree`,
each behind a small trusted wrapper in `src/dec.rs` and `src/formats/tree.rs`.

Layout:

- `src/` — the verified library (model, rules, reconciliation, formats).
- `tests/` — tests run against the compiled library.
- `app/` — the command-line program (argument handling, files, output).

The syntax prohibition tables in `src/formats/prohibitions.rs` hold only a
small set of rows (the UBL and CII paths that the other rules and tests
exercise), not the full tables generated from the UBL and CII schemas; a
document may therefore pass the prohibition check while using an element
that the full tables would refuse.
