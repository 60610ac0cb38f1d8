//! A validation report as one line of JSON, and JSON string escaping.
use vstd::prelude::*;
use crate::bt::path_text;
use crate::report::{Finding, Report, Severity, no_fatal};
use crate::text::{chars_of, owned, push_char};
use crate::rule_table::Rule;

verus! {

/// JSON form of one character inside a string: backslash, quote and line
/// feed escaped.
pub open spec fn json_char(c: char) -> Seq<char> {
    if c == '\\' {
        seq!['\\', '\\']
    } else if c == '"' {
        seq!['\\', '"']
    } else if c == '\n' {
        seq!['\\', 'n']
    } else {
        seq![c]
    }
}

/// JSON form of a text inside a string.
pub open spec fn json_text(s: Seq<char>) -> Seq<char>
    decreases s.len(),
{
    if s.len() == 0 {
        Seq::empty()
    } else {
        json_text(s.drop_last()) + json_char(s.last())
    }
}

/// Append the JSON form of a text.
pub fn push_json_escaped(out: &mut String, t: &str)
    ensures
        final(out)@ == old(out)@ + json_text(t@),
{
    let v = chars_of(t);
    let ghost start = out@;
    let mut i: usize = 0;
    while i < v.len()
        invariant
            v@ == t@,
            i <= v.len(),
            out@ == start + json_text(t@.take(i as int)),
        decreases v.len() - i,
    {
        let c = v[i];
        proof {
            assert(t@.take(i + 1).drop_last() =~= t@.take(i as int));
            assert(t@.take(i + 1).last() == c);
        }
        let ghost before = out@;
        if c == '\\' {
            push_char(out, '\\');
            push_char(out, '\\');
        } else if c == '"' {
            push_char(out, '\\');
            push_char(out, '"');
        } else if c == '\n' {
            push_char(out, '\\');
            push_char(out, 'n');
        } else {
            push_char(out, c);
        }
        assert(out@ =~= before + json_char(c));
        i = i + 1;
    }
    assert(t@.take(v.len() as int) =~= t@);
}

/// The JSON form of a text inside a string.
pub fn json_escape(t: &str) -> (r: String)
    ensures
        r@ == json_text(t@),
{
    let mut s = String::new();
    push_json_escaped(&mut s, t);
    assert(Seq::<char>::empty() + json_text(t@) =~= json_text(t@));
    s
}

/// Name of a severity.
pub open spec fn severity_name(s: Severity) -> Seq<char> {
    match s {
        Severity::Fatal => "Fatal"@,
        Severity::Warning => "Warning"@,
        Severity::Info => "Info"@,
    }
}

/// One finding as a JSON object.
pub open spec fn finding_json(f: Finding) -> Seq<char> {
    "{\"id\":\""@ + f.id@ + "\",\"severity\":\""@ + severity_name(f.severity) + "\",\"path\":\""@ + path_text(
        f.path,
    ) + "\",\"message\":\""@ + json_text(f.message@) + "\"}"@
}

/// The first `n` findings as JSON objects separated by commas.
pub open spec fn findings_json(s: Seq<Finding>, n: int) -> Seq<char>
    decreases n,
{
    if n <= 0 {
        Seq::empty()
    } else if n == 1 {
        finding_json(s[0])
    } else {
        findings_json(s, n - 1) + ","@ + finding_json(s[n - 1])
    }
}

/// A report as JSON: whether it is ok, the profile slug, the findings.
pub open spec fn report_json_text(r: Report) -> Seq<char> {
    "{\"ok\":"@ + (if no_fatal(r.findings@) { "true"@ } else { "false"@ }) + ",\"profile\":\""@ + r.profile_slug@
        + "\",\"findings\":["@ + findings_json(r.findings@, r.findings@.len() as int) + "]}"@
}

/// Append one finding as a JSON object.
fn push_finding(out: &mut String, f: &Finding)
    ensures
        final(out)@ == old(out)@ + finding_json(*f),
{
    let ghost start = out@;
    out.append("{\"id\":\"");
    out.append(f.id);
    out.append("\",\"severity\":\"");
    match f.severity {
        Severity::Fatal => out.append("Fatal"),
        Severity::Warning => out.append("Warning"),
        Severity::Info => out.append("Info"),
    }
    out.append("\",\"path\":\"");
    let p = f.path.to_string();
    out.append(p.as_str());
    out.append("\",\"message\":\"");
    push_json_escaped(out, f.message.as_str());
    out.append("\"}");
    assert(out@ =~= start + finding_json(*f));
}

/// A report as one line of JSON: `ok`, `profile` and the findings with
/// their id, severity, path and escaped message.
pub fn report_json(report: &Report) -> (r: String)
    ensures
        r@ == report_json_text(*report),
{
    let mut findings = String::new();
    let mut i: usize = 0;
    while i < report.findings.len()
        invariant
            i <= report.findings@.len(),
            findings@ == findings_json(report.findings@, i as int),
        decreases report.findings.len() - i,
    {
        let ghost before = findings@;
        if i > 0 {
            findings.append(",");
        }
        push_finding(&mut findings, &report.findings[i]);
        proof {
            if i == 0 {
                assert(findings@ =~= findings_json(report.findings@, 1));
            } else {
                assert(findings@ =~= findings_json(report.findings@, i + 1));
            }
        }
        i = i + 1;
    }
    let mut out = String::new();
    out.append("{\"ok\":");
    if report.ok() {
        out.append("true");
    } else {
        out.append("false");
    }
    out.append(",\"profile\":\"");
    out.append(report.profile_slug);
    out.append("\",\"findings\":[");
    out.append(findings.as_str());
    out.append("]}");
    assert(out@ =~= report_json_text(*report));
    out
}

/// One rule's line of the JSON listing: `  {"id":"…","text":"…"}`, a comma
/// unless it is the last, and a newline. The text is escaped; the id is
/// written as it is.
pub open spec fn rule_json_line(rule: Rule, last: bool) -> Seq<char> {
    "  {\"id\":\""@ + rule.id@ + "\",\"text\":\""@ + json_text(rule.text@) + "\"}"@ + (if last { Seq::<char>::empty() } else { ","@ }) + "\n"@
}

/// The lines of the first `n` rules of a listing of `len` rules.
pub open spec fn rule_json_lines(rules: Seq<Rule>, n: int, len: int) -> Seq<char>
    decreases n,
{
    if n <= 0 {
        Seq::empty()
    } else {
        rule_json_lines(rules, n - 1, len) + rule_json_line(rules[n - 1], n == len)
    }
}

/// The JSON listing of the rules: `[`, one line per rule, `]`, each on a
/// line of its own.
pub open spec fn rules_json_text(rules: Seq<Rule>) -> Seq<char> {
    "[\n"@ + rule_json_lines(rules, rules.len() as int, rules.len() as int) + "]\n"@
}

/// The rules as a JSON array, one object with id and text per line.
pub fn rules_json(rules: &Vec<Rule>) -> (r: String)
    ensures
        r@ == rules_json_text(rules@),
{
    let mut s = owned("[\n");
    let n = rules.len();
    let mut i: usize = 0;
    while i < n
        invariant
            i <= n,
            n == rules@.len(),
            s@ == "[\n"@ + rule_json_lines(rules@, i as int, n as int),
        decreases n - i,
    {
        let rule = &rules[i];
        s.append("  {\"id\":\"");
        s.append(rule.id);
        s.append("\",\"text\":\"");
        push_json_escaped(&mut s, rule.text);
        s.append("\"}");
        if i + 1 < n {
            s.append(",");
        }
        s.append("\n");
        i = i + 1;
        proof {
            assert(s@ =~= "[\n"@ + rule_json_lines(rules@, i as int, n as int));
        }
    }
    s.append("]\n");
    s
}

} // verus!
