//! Validation findings. A fatal finding fails [`Report::ok`]; warnings and
//! infos do not.
use vstd::prelude::*;
use vstd::multiset::Multiset;
use crate::bt::{Path, path_text};
use crate::text::{chars_of, concat, owned};

verus! {

/// Finding severity. Only [`Severity::Fatal`] fails [`Report::ok`].
#[derive(Debug, Clone, Copy, PartialEq, Eq, PartialOrd, Ord, Structural)]
pub enum Severity {
    /// Fails [`Report::ok`].
    Fatal,
    /// Does not fail [`Report::ok`].
    Warning,
    /// Does not fail [`Report::ok`].
    Info,
}

/// Provenance of a registered rule id.
#[derive(Debug, Clone, Copy, PartialEq, Eq, Structural)]
pub enum Source {
    /// Standard text and artefacts agree.
    Both,
    /// Standard text only.
    StandardOnly,
    /// Artefact only.
    ArtefactOnly,
    /// Id owned by this crate.
    Crate,
}

/// One rule hit at a [`Path`].
#[derive(Debug, Clone, PartialEq, Eq)]
pub struct Finding {
    /// Registered rule id.
    pub id: &'static str,
    /// Fatal fails [`Report::ok`]; warning and info do not.
    pub severity: Severity,
    /// Finding location.
    pub path: Path,
    /// Authority wording.
    pub message: String,
    /// Optional expected/actual values.
    pub detail: Option<String>,
    /// Optional hint.
    pub hint: Option<String>,
}

impl Finding {
    /// Fatal finding.
    pub fn fatal(id: &'static str, path: Path, message: String) -> (r: Finding)
        ensures
            r.id == id,
            r.severity == Severity::Fatal,
            r.path == path,
            r.message == message,
            r.detail is None,
            r.hint is None,
    {
        Finding { id, severity: Severity::Fatal, path, message, detail: None, hint: None }
    }

    /// Warning finding.
    pub fn warning(id: &'static str, path: Path, message: String) -> (r: Finding)
        ensures
            r.id == id,
            r.severity == Severity::Warning,
            r.path == path,
            r.message == message,
            r.detail is None,
            r.hint is None,
    {
        Finding { id, severity: Severity::Warning, path, message, detail: None, hint: None }
    }

    /// Display text: `[id] path — message`, then ` (detail)` when there is one.
    pub fn to_string(&self) -> (r: String)
        ensures
            r@ == finding_text(*self),
    {
        let mut s = concat("[", self.id);
        s.append("] ");
        let p = self.path.to_string();
        s.append(p.as_str());
        s.append(" — ");
        s.append(self.message.as_str());
        match &self.detail {
            Some(d) => {
                s.append(" (");
                s.append(d.as_str());
                s.append(")");
            },
            None => {},
        }
        s
    }
}

/// Display text of a finding.
pub open spec fn finding_text(f: Finding) -> Seq<char> {
    let head = "["@ + f.id@ + "] "@ + path_text(f.path) + " — "@ + f.message@;
    match f.detail {
        Some(d) => head + " ("@ + d@ + ")"@,
        None => head,
    }
}

/// Validation result. [`Report::ok`] means no fatal finding, not no findings.
#[derive(Debug, Clone, PartialEq, Eq)]
pub struct Report {
    /// Collected hits, unsorted until [`Report::sort_stable`].
    pub findings: Vec<Finding>,
    /// Profile slug of the invoice that was checked.
    pub profile_slug: &'static str,
    /// Number of rules evaluated.
    pub rules_checked: usize,
}

impl Default for Report {
    fn default() -> (r: Report)
        ensures
            r.findings@.len() == 0,
            r.profile_slug@ == Seq::<char>::empty(),
            r.rules_checked == 0,
    {
        let slug: &'static str = "";
        proof {
            reveal_strlit("");
        }
        Report { findings: Vec::new(), profile_slug: slug, rules_checked: 0 }
    }
}

/// No finding in the sequence is fatal.
pub open spec fn no_fatal(s: Seq<Finding>) -> bool {
    forall|i: int| 0 <= i < s.len() ==> (#[trigger] s[i]).severity != Severity::Fatal
}

/// Sort rank of a severity: fatal, then warning, then info.
pub open spec fn rank(s: Severity) -> int {
    match s {
        Severity::Fatal => 0,
        Severity::Warning => 1,
        Severity::Info => 2,
    }
}

/// Lexicographic order on texts by character code (`a <= b`).
pub open spec fn text_le(a: Seq<char>, b: Seq<char>) -> bool
    decreases a.len(),
{
    if a.len() == 0 {
        true
    } else if b.len() == 0 {
        false
    } else if (a[0] as int) < (b[0] as int) {
        true
    } else if a[0] == b[0] {
        text_le(a.drop_first(), b.drop_first())
    } else {
        false
    }
}

/// The order in which [`Report::sort_stable`] puts findings: severity rank,
/// then the path's display text, then the id.
pub open spec fn finding_le(a: Finding, b: Finding) -> bool {
    let pa = path_text(a.path);
    let pb = path_text(b.path);
    ||| rank(a.severity) < rank(b.severity)
    ||| rank(a.severity) == rank(b.severity) && pa != pb && text_le(pa, pb)
    ||| rank(a.severity) == rank(b.severity) && pa == pb && text_le(a.id@, b.id@)
}

/// Two findings compare equal: each comes no later than the other.
pub open spec fn same_place(a: Finding, b: Finding) -> bool {
    finding_le(a, b) && finding_le(b, a)
}

/// The findings that compare equal to `x`.
pub open spec fn place_of(x: Finding) -> spec_fn(Finding) -> bool {
    |f: Finding| same_place(f, x)
}

/// `after` keeps, for every place in the order, the findings of `before`
/// that compare equal there in the order they had.
pub open spec fn stable(before: Seq<Finding>, after: Seq<Finding>) -> bool {
    forall|x: Finding| #[trigger] after.filter(place_of(x)) == before.filter(place_of(x))
}

/// Inserting a finding after every finding that comes no later than it,
/// and before every one that comes later, keeps the order of equals.
proof fn lemma_insert_keeps_stable(src: Seq<Finding>, before: Seq<Finding>, f: Finding, p: int)
    requires
        0 <= p <= before.len(),
        stable(src, before),
        forall|q: int| 0 <= q < p ==> finding_le(#[trigger] before[q], f),
        forall|q: int| p <= q < before.len() ==> !finding_le(#[trigger] before[q], f),
    ensures
        stable(src.push(f), before.insert(p, f)),
{
    broadcast use vstd::seq_lib::group_seq_properties;
    let t = before.take(p);
    let sk = before.skip(p);
    assert(before == t + sk);
    assert(before.insert(p, f) == t.push(f) + sk);
    assert forall|x: Finding| #[trigger] before.insert(p, f).filter(place_of(x)) == src.push(f).filter(place_of(x)) by {
        let pr = place_of(x);
        Seq::filter_distributes_over_add(t.push(f), sk, pr);
        Seq::filter_distributes_over_add(t, sk, pr);
        t.lemma_filter_push(f, pr);
        src.lemma_filter_push(f, pr);
        assert(src.filter(pr) == before.filter(pr));
        if pr(f) {
            if sk.filter(pr).len() > 0 {
                let y = sk.filter(pr)[0];
                sk.lemma_filter_pred(pr, 0);
                assert(sk.filter(pr).contains(y));
                sk.lemma_filter_contains_rev(pr, y);
                assert(pr(y));
                assert(sk.contains(y));
                let q = choose|q: int| 0 <= q < sk.len() && sk[q] == y;
                assert(before[p + q] == y);
                lemma_finding_le_trans(y, x, f);
            }
            assert(sk.filter(pr) =~= Seq::<Finding>::empty());
            assert(t.filter(pr) + sk.filter(pr) =~= t.filter(pr));
        }
    }
}

/// Every finding comes no later in the order than those after it.
pub open spec fn sorted(s: Seq<Finding>) -> bool {
    forall|i: int, j: int| 0 <= i < j < s.len() ==> finding_le(#[trigger] s[i], #[trigger] s[j])
}

/// `text_le` is total.
pub proof fn lemma_text_le_total(a: Seq<char>, b: Seq<char>)
    ensures
        text_le(a, b) || text_le(b, a),
    decreases a.len(),
{
    if a.len() > 0 && b.len() > 0 {
        if a[0] == b[0] {
            lemma_text_le_total(a.drop_first(), b.drop_first());
        }
    }
}

/// `text_le` is antisymmetric.
pub proof fn lemma_text_le_antisym(a: Seq<char>, b: Seq<char>)
    requires
        text_le(a, b),
        text_le(b, a),
    ensures
        a == b,
    decreases a.len(),
{
    if a.len() > 0 {
        lemma_text_le_antisym(a.drop_first(), b.drop_first());
        assert(a =~= seq![a[0]] + a.drop_first());
        assert(b =~= seq![b[0]] + b.drop_first());
    } else {
        assert(b.len() == 0);
        assert(a =~= b);
    }
}

/// `text_le` is transitive.
pub proof fn lemma_text_le_trans(a: Seq<char>, b: Seq<char>, c: Seq<char>)
    requires
        text_le(a, b),
        text_le(b, c),
    ensures
        text_le(a, c),
    decreases a.len(),
{
    if a.len() > 0 && b.len() > 0 && c.len() > 0 && a[0] == b[0] && b[0] == c[0] {
        lemma_text_le_trans(a.drop_first(), b.drop_first(), c.drop_first());
    }
}

/// The finding order is total.
pub proof fn lemma_finding_le_total(a: Finding, b: Finding)
    ensures
        finding_le(a, b) || finding_le(b, a),
{
    lemma_text_le_total(path_text(a.path), path_text(b.path));
    lemma_text_le_total(a.id@, b.id@);
}

/// The finding order is transitive.
pub proof fn lemma_finding_le_trans(a: Finding, b: Finding, c: Finding)
    requires
        finding_le(a, b),
        finding_le(b, c),
    ensures
        finding_le(a, c),
{
    let pa = path_text(a.path);
    let pb = path_text(b.path);
    let pc = path_text(c.path);
    if rank(a.severity) == rank(b.severity) && rank(b.severity) == rank(c.severity) {
        if pa != pb && pb != pc {
            lemma_text_le_trans(pa, pb, pc);
            if pa == pc {
                lemma_text_le_antisym(pa, pb);
            }
        } else if pa == pb && pb == pc {
            lemma_text_le_trans(a.id@, b.id@, c.id@);
        }
    }
}

/// `a[i..] <= b[j..]` in the text order, decided character by character.
fn chars_le_from(a: &[char], b: &[char], i: usize, j: usize) -> (r: bool)
    requires
        i <= a.len(),
        j <= b.len(),
    ensures
        r == text_le(a@.subrange(i as int, a.len() as int), b@.subrange(j as int, b.len() as int)),
    decreases a.len() - i,
{
    let ghost sa = a@.subrange(i as int, a.len() as int);
    let ghost sb = b@.subrange(j as int, b.len() as int);
    if i == a.len() {
        true
    } else if j == b.len() {
        false
    } else if a[i] < b[j] {
        assert(sa[0] == a@[i as int] && sb[0] == b@[j as int]);
        true
    } else if a[i] == b[j] {
        assert(sa[0] == a@[i as int] && sb[0] == b@[j as int]);
        assert(sa.drop_first() =~= a@.subrange(i + 1, a.len() as int));
        assert(sb.drop_first() =~= b@.subrange(j + 1, b.len() as int));
        chars_le_from(a, b, i + 1, j + 1)
    } else {
        assert(sa[0] == a@[i as int] && sb[0] == b@[j as int]);
        false
    }
}

/// `a <= b` in the text order.
pub fn text_le_exec(a: &str, b: &str) -> (r: bool)
    ensures
        r == text_le(a@, b@),
{
    let va = chars_of(a);
    let vb = chars_of(b);
    assert(va@.subrange(0, va@.len() as int) =~= va@);
    assert(vb@.subrange(0, vb@.len() as int) =~= vb@);
    chars_le_from(va.as_slice(), vb.as_slice(), 0, 0)
}

fn severity_rank(s: Severity) -> (r: u8)
    ensures
        r == rank(s),
{
    match s {
        Severity::Fatal => 0,
        Severity::Warning => 1,
        Severity::Info => 2,
    }
}

/// `a` comes no later than `b` in the report order.
pub fn finding_le_exec(a: &Finding, b: &Finding) -> (r: bool)
    ensures
        r == finding_le(*a, *b),
{
    let ra = severity_rank(a.severity);
    let rb = severity_rank(b.severity);
    if ra != rb {
        return ra < rb;
    }
    let pa = a.path.to_string();
    let pb = b.path.to_string();
    if !crate::text::str_eq(pa.as_str(), pb.as_str()) {
        return text_le_exec(pa.as_str(), pb.as_str());
    }
    text_le_exec(a.id, b.id)
}

impl Report {
    /// No finding is fatal. Warnings and infos do not fail.
    pub fn ok(&self) -> (r: bool)
        ensures
            r == no_fatal(self.findings@),
    {
        let mut i: usize = 0;
        while i < self.findings.len()
            invariant
                i <= self.findings@.len(),
                forall|j: int| 0 <= j < i ==> (#[trigger] self.findings@[j]).severity
                    != Severity::Fatal,
            decreases self.findings.len() - i,
        {
            if self.findings[i].severity == Severity::Fatal {
                return false;
            }
            i = i + 1;
        }
        true
    }

    /// Append a finding. Does not sort.
    pub fn push(&mut self, finding: Finding)
        ensures
            final(self).findings@ == old(self).findings@.push(finding),
            final(self).profile_slug == old(self).profile_slug,
            final(self).rules_checked == old(self).rules_checked,
    {
        self.findings.push(finding);
    }

    /// Sort by severity, then path text, then id; findings that compare
    /// equal keep their relative order.
    pub fn sort_stable(&mut self)
        ensures
            final(self).findings@.to_multiset() == old(self).findings@.to_multiset(),
            sorted(final(self).findings@),
            stable(old(self).findings@, final(self).findings@),
            final(self).profile_slug == old(self).profile_slug,
            final(self).rules_checked == old(self).rules_checked,
    {
        broadcast use vstd::seq_lib::group_to_multiset_ensures;

        let mut rest: Vec<Finding> = Vec::new();
        std::mem::swap(&mut rest, &mut self.findings);
        let ghost all = rest@;
        assert(all.len() == rest.len());
        let mut out: Vec<Finding> = Vec::new();
        let mut k: usize = 0;
        assert(all.subrange(0, 0) =~= out@);
        while rest.len() > 0
            invariant
                k + rest@.len() == all.len(),
                all.len() <= usize::MAX,
                rest@ == all.subrange(k as int, all.len() as int),
                out@.to_multiset() == all.subrange(0, k as int).to_multiset(),
                sorted(out@),
                stable(all.subrange(0, k as int), out@),
            decreases rest.len(),
        {
            let f = rest.remove(0);
            assert(f == all[k as int]);
            let mut p: usize = 0;
            while p < out.len() && finding_le_exec(&out[p], &f)
                invariant
                    p <= out@.len(),
                    sorted(out@),
                    forall|q: int| 0 <= q < p ==> finding_le(#[trigger] out@[q], f),
                decreases out.len() - p,
            {
                p = p + 1;
            }
            proof {
                if p < out@.len() {
                    lemma_finding_le_total(out@[p as int], f);
                    assert forall|q: int| p <= q < out@.len() implies finding_le(
                        f,
                        #[trigger] out@[q],
                    ) by {
                        if q > p {
                            lemma_finding_le_trans(f, out@[p as int], out@[q]);
                        }
                    }
                }
            }
            let ghost before = out@;
            out.insert(p, f);
            proof {
                assert(out@ =~= before.take(p as int).push(f) + before.skip(p as int));
                assert forall|i: int, j: int| 0 <= i < j < out@.len() implies finding_le(
                    #[trigger] out@[i],
                    #[trigger] out@[j],
                ) by {
                    if i < p && j < p {
                        assert(out@[i] == before[i] && out@[j] == before[j]);
                    } else if i < p && j == p {
                    } else if i < p && j > p {
                        assert(out@[i] == before[i] && out@[j] == before[j - 1]);
                    } else if i == p {
                        assert(out@[j] == before[j - 1]);
                    } else {
                        assert(out@[i] == before[i - 1] && out@[j] == before[j - 1]);
                    }
                }
                assert(out@ == before.insert(p as int, f));
                assert forall|q: int| p <= q < before.len() implies !finding_le(#[trigger] before[q], f) by {
                    if finding_le(before[q], f) {
                        if q > p {
                            lemma_finding_le_trans(before[p as int], before[q], f);
                        }
                    }
                }
                lemma_insert_keeps_stable(all.subrange(0, k as int), before, f, p as int);
                assert(all.subrange(0, k + 1) =~= all.subrange(0, k as int).push(f));
                vstd::seq_lib::to_multiset_insert(before, p as int, f);
                vstd::seq_lib::to_multiset_build(all.subrange(0, k as int), f);
                assert(all.subrange(0, k + 1) =~= all.subrange(0, k as int).push(f));
            }
            k = k + 1;
        }
        assert(all.subrange(0, k as int) =~= all);
        self.findings = out;
    }

    /// Display text: `valid` when [`Report::ok`], otherwise one finding per line.
    pub fn to_string(&self) -> (r: String)
        ensures
            no_fatal(self.findings@) ==> r@ == "valid"@,
            !no_fatal(self.findings@) ==> r@ == report_lines(self.findings@),
    {
        if self.ok() {
            return owned("valid");
        }
        let mut s = String::new();
        let mut i: usize = 0;
        while i < self.findings.len()
            invariant
                i <= self.findings@.len(),
                s@ == report_lines(self.findings@.take(i as int)),
            decreases self.findings.len() - i,
        {
            let t = self.findings[i].to_string();
            s.append(t.as_str());
            s.append("\n");
            assert(self.findings@.take(i + 1).drop_last() =~= self.findings@.take(i as int));
            i = i + 1;
        }
        assert(self.findings@.take(self.findings@.len() as int) =~= self.findings@);
        s
    }
}

/// Each finding's text followed by a newline.
pub open spec fn report_lines(s: Seq<Finding>) -> Seq<char>
    decreases s.len(),
{
    if s.len() == 0 {
        Seq::empty()
    } else {
        report_lines(s.drop_last()) + finding_text(s.last()) + "\n"@
    }
}

/// A report is `ok` exactly when it holds no fatal finding, however many
/// warnings or infos it holds; sorting does not change that.
pub proof fn lemma_ok_survives_sort(before: Seq<Finding>, after: Seq<Finding>)
    requires
        after.to_multiset() == before.to_multiset(),
    ensures
        no_fatal(after) == no_fatal(before),
{
    broadcast use vstd::seq_lib::group_to_multiset_ensures;

    if !no_fatal(before) {
        let i = choose|i: int| 0 <= i < before.len() && before[i].severity == Severity::Fatal;
        assert(before.to_multiset().count(before[i]) > 0);
        assert(after.contains(before[i]));
    }
    if !no_fatal(after) {
        let i = choose|i: int| 0 <= i < after.len() && after[i].severity == Severity::Fatal;
        assert(after.to_multiset().count(after[i]) > 0);
        assert(before.contains(after[i]));
    }
}

} // verus!
