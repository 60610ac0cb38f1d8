//! Appending findings to a report, and what an appending step keeps.
use vstd::prelude::*;
use crate::bt::Path;
use crate::report::{Finding, Report, Severity};
use crate::text::owned;

verus! {

/// `new` is `old` with findings appended, each carrying `id`; the profile slug
/// and the rule count are kept.
pub open spec fn emitted(old: Report, new: Report, id: Seq<char>) -> bool {
    &&& new.profile_slug == old.profile_slug
    &&& new.rules_checked == old.rules_checked
    &&& old.findings@.len() <= new.findings@.len()
    &&& new.findings@.subrange(0, old.findings@.len() as int) =~= old.findings@
    &&& forall|i: int| old.findings@.len() <= i < new.findings@.len() ==> (#[trigger] new.findings@[i]).id@ == id
}

/// Number of findings appended from `old` to `new`.
pub open spec fn added(old: Report, new: Report) -> int {
    new.findings@.len() - old.findings@.len()
}

/// A report that did not change appended nothing.
pub proof fn lemma_emitted_none(r: Report, id: Seq<char>)
    ensures
        emitted(r, r, id),
        added(r, r) == 0,
{
}

/// Two appending steps under one id are one appending step.
pub proof fn lemma_emitted_trans(a: Report, b: Report, c: Report, id: Seq<char>)
    requires
        emitted(a, b, id),
        emitted(b, c, id),
    ensures
        emitted(a, c, id),
        added(a, c) == added(a, b) + added(b, c),
{
    let n = a.findings@.len() as int;
    let m = b.findings@.len() as int;
    assert forall|i: int| 0 <= i < n implies c.findings@[i] == a.findings@[i] by {
        assert(c.findings@.subrange(0, m)[i] == b.findings@[i]);
        assert(b.findings@.subrange(0, n)[i] == a.findings@[i]);
    }
    assert forall|i: int| n <= i < c.findings@.len() implies (#[trigger] c.findings@[i]).id@ == id by {
        if i < m {
            assert(c.findings@.subrange(0, m)[i] == b.findings@[i]);
        }
    }
}

/// Append a fatal finding.
pub fn fatal_at(report: &mut Report, id: &'static str, path: Path, message: &str)
    ensures
        emitted(*old(report), *final(report), id@),
        added(*old(report), *final(report)) == 1,
        final(report).findings@.last().severity == Severity::Fatal,
        final(report).findings@.last().path == path,
        final(report).findings@.last().message@ == message@,
{
    report.push(Finding::fatal(id, path, owned(message)));
}

/// Append a fatal finding with a message built by the caller.
pub fn fatal_msg(report: &mut Report, id: &'static str, path: Path, message: String)
    ensures
        emitted(*old(report), *final(report), id@),
        added(*old(report), *final(report)) == 1,
        final(report).findings@.last().severity == Severity::Fatal,
        final(report).findings@.last().path == path,
        final(report).findings@.last().message == message,
{
    report.push(Finding::fatal(id, path, message));
}

/// Append a warning.
pub fn warning_at(report: &mut Report, id: &'static str, path: Path, message: &str)
    ensures
        emitted(*old(report), *final(report), id@),
        added(*old(report), *final(report)) == 1,
        final(report).findings@.last().severity == Severity::Warning,
        final(report).findings@.last().path == path,
        final(report).findings@.last().message@ == message@,
{
    report.push(Finding::warning(id, path, owned(message)));
}

} // verus!
