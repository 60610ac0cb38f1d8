use core_invoice::report::{Finding, Report, Severity};
use core_invoice::rules::canonical;
use core_invoice::{conformance_matrix, explain, matches_id, BtId, Group, Path};

#[test]
fn br_24_is_explainable() {
    assert!(explain("BR-24").unwrap().contains("BT-131"));
}

#[test]
fn explain_br_de_15_without_feature() {
    assert!(explain("BR-DE-15").is_none());
    assert!(explain("BR-DE-18").is_none());
    assert!(explain("BR-TMP-2").is_none());
}

#[test]
fn padding_matches() {
    assert!(matches_id("BR-02", "br-2"));
    assert!(matches_id("BR-CO-16", "BR-CO-16"));
    assert!(explain("br-02").unwrap().contains("BT-1"));
    assert!(explain("nope").is_none());
    assert!(explain("BR-DEC-12").unwrap().contains("BT-109"));
    assert!(explain("BR-CO-16")
        .unwrap()
        .contains("BT-115) = Invoice total amount with VAT (BT-112)"));
    assert!(!explain("BR-CO-16").unwrap().contains("line net + tax"));
}

#[test]
fn canonical_forms() {
    assert_eq!(canonical(" br-2 "), "BR-02");
    assert_eq!(canonical("BR-CO-16"), "BR-CO-16");
    assert_eq!(canonical("abc"), "ABC");
    assert_eq!(canonical("x-"), "X-00");
    assert_eq!(canonical("peppol-en16931-r1"), "PEPPOL-EN16931-R1");
}

#[test]
fn matrix_lists_core_and_extras() {
    let m = conformance_matrix();
    assert!(m.contains("| id | en16931 | peppol | pint | pint-my |"));
    assert!(m.contains("| BR-01 | CORE | CORE | CORE | CORE |"));
    assert!(m.contains("| PEPPOL-EN16931-R001 | — | extra | — | — |"));
    assert!(m.contains("Not IRBM Valid"));
    for rule in core_invoice::catalogue() {
        assert!(m.contains(rule.id));
    }
    assert!(!m.contains("| BR-DE-15 |"));
}

fn finding(id: &'static str, sev: Severity, path: Path) -> Finding {
    let mut f = Finding::fatal(id, path, "m".to_string());
    f.severity = sev;
    f
}

#[test]
fn sort_orders_by_severity_then_path_then_id() {
    let mut r = Report::default();
    r.push(finding("B", Severity::Warning, Path::term(BtId(1))));
    r.push(finding("Z", Severity::Fatal, Path::term(BtId(2))));
    r.push(finding("A", Severity::Fatal, Path::term(BtId(2))));
    r.push(finding("C", Severity::Fatal, Path::group(Group::Totals)));
    r.push(finding("D", Severity::Info, Path::term(BtId(1))));
    r.sort_stable();
    let ids: Vec<&str> = r.findings.iter().map(|f| f.id).collect();
    assert_eq!(ids, vec!["C", "A", "Z", "B", "D"]);
}

#[test]
fn ok_means_no_fatal() {
    let mut r = Report::default();
    assert!(r.ok());
    assert_eq!(r.to_string(), "valid");
    r.push(Finding::warning("W", Path::term(BtId(1)), "warn".to_string()));
    assert!(r.ok());
    r.push(Finding::fatal("BR-01", Path::term(BtId(24)), "missing".to_string()));
    assert!(!r.ok());
    assert_eq!(
        r.to_string(),
        "[W] BT-1 — warn\n[BR-01] BT-24 — missing\n"
    );
}
