//! Rule registry. Validation and [`explain`] share one table.
use vstd::prelude::*;
use crate::profile::Profile;
use crate::rule_table::{
    Rule, category_rules, category_rules_spec, code_list_rules, code_list_rules_spec,
    decimal_rules, decimal_rules_spec, general_rules, general_rules_spec, peppol_rules,
    peppol_rules_spec,
};
use crate::text::{
    chars_eq_ic, chars_of, eq_ic, is_digit, owned, str_eq, string_from_chars, trim, trim_str,
    upper, char_upper,
};

verus! {

/// Rules that run on every profile.
pub open spec fn core_rules_spec() -> Seq<Rule> {
    general_rules_spec() + category_rules_spec() + code_list_rules_spec() + decimal_rules_spec()
}

/// Rules a profile adds to the core ones: Peppol BIS runs the Peppol rules.
pub open spec fn extra_rules_spec(p: Profile) -> Seq<Rule> {
    if p == Profile::PeppolBis3 {
        peppol_rules_spec()
    } else {
        Seq::empty()
    }
}

/// Every registered rule: the core ones, then every profile's extras.
pub open spec fn catalogue_spec() -> Seq<Rule> {
    core_rules_spec() + peppol_rules_spec()
}

/// ASCII upper case of every character.
pub open spec fn upper_text(s: Seq<char>) -> Seq<char> {
    Seq::new(s.len(), |i: int| upper(s[i]))
}

/// Index of the last `-`.
pub open spec fn last_dash(s: Seq<char>) -> Option<int>
    decreases s.len(),
{
    if s.len() == 0 {
        None
    } else if s.last() == '-' {
        Some(s.len() - 1)
    } else {
        last_dash(s.drop_last())
    }
}

/// ASCII digits only (empty allowed).
pub open spec fn digits_only(s: Seq<char>) -> bool {
    forall|i: int| 0 <= i < s.len() ==> is_digit(#[trigger] s[i])
}

/// Left-padded with `0` to at least two characters.
pub open spec fn pad2(s: Seq<char>) -> Seq<char> {
    if s.len() >= 2 {
        s
    } else {
        Seq::new((2 - s.len()) as nat, |i: int| '0') + s
    }
}

/// Canonical form of a rule id: trimmed, upper case, and a numeric last
/// segment padded to two digits (`br-2` is `BR-02`).
pub open spec fn canonical_id(s: Seq<char>) -> Seq<char> {
    let t = trim(s);
    match last_dash(t) {
        None => upper_text(t),
        Some(k) => {
            let tail = t.skip(k + 1);
            if digits_only(tail) {
                upper_text(t.take(k)) + seq!['-'] + pad2(tail)
            } else {
                upper_text(t)
            }
        },
    }
}

/// A query names a registered id.
pub open spec fn id_matches(registered: Seq<char>, query: Seq<char>) -> bool {
    eq_ic(canonical_id(registered), canonical_id(query))
}

fn last_dash_exec(v: &Vec<char>) -> (r: Option<usize>)
    ensures
        r matches Some(k) ==> k < v.len() && last_dash(v@) == Some(k as int),
        r is None ==> last_dash(v@) is None,
{
    let mut i: usize = v.len();
    assert(v@.take(i as int) =~= v@);
    while i > 0
        invariant
            i <= v.len(),
            last_dash(v@) == last_dash(v@.take(i as int)),
        decreases i,
    {
        assert(v@.take(i as int).last() == v@[i - 1]);
        if v[i - 1] == '-' {
            return Some(i - 1);
        }
        assert(v@.take(i as int).drop_last() =~= v@.take(i - 1));
        i = i - 1;
    }
    None
}

fn push_upper(out: &mut Vec<char>, v: &Vec<char>, lo: usize, hi: usize)
    requires
        lo <= hi <= v.len(),
    ensures
        final(out)@ == old(out)@ + upper_text(v@.subrange(lo as int, hi as int)),
{
    let mut i: usize = lo;
    while i < hi
        invariant
            lo <= i <= hi,
            hi <= v.len(),
            out@ == old(out)@ + upper_text(v@.subrange(lo as int, i as int)),
        decreases hi - i,
    {
        out.push(char_upper(v[i]));
        assert(upper_text(v@.subrange(lo as int, i + 1)) =~= upper_text(
            v@.subrange(lo as int, i as int),
        ).push(upper(v@[i as int])));
        i = i + 1;
    }
}

/// Canonical form of an id, see [`canonical_id`].
pub fn canonical(id: &str) -> (r: String)
    ensures
        r@ == canonical_id(id@),
{
    let t = trim_str(id);
    let v = chars_of(t);
    let mut out: Vec<char> = Vec::new();
    match last_dash_exec(&v) {
        None => {
            push_upper(&mut out, &v, 0, v.len());
            assert(v@.subrange(0, v@.len() as int) =~= v@);
        },
        Some(k) => {
            let mut all = true;
            let mut j: usize = k + 1;
            while j < v.len()
                invariant
                    k < v.len(),
                    k + 1 <= j <= v.len(),
                    all == (forall|q: int| k + 1 <= q < j ==> is_digit(#[trigger] v@[q])),
                decreases v.len() - j,
            {
                if !('0' <= v[j] && v[j] <= '9') {
                    all = false;
                }
                j = j + 1;
            }
            let ghost tail = v@.skip(k + 1);
            assert(all == digits_only(tail)) by {
                if all {
                    assert forall|i: int| 0 <= i < tail.len() implies is_digit(#[trigger] tail[i]) by {
                        assert(tail[i] == v@[k + 1 + i]);
                    }
                } else {
                    let q = choose|q: int| k + 1 <= q < v.len() && !is_digit(#[trigger] v@[q]);
                    assert(tail[q - k - 1] == v@[q]);
                }
            }
            if all {
                push_upper(&mut out, &v, 0, k);
                out.push('-');
                let n = v.len() - (k + 1);
                let ghost head = out@;
                assert(head == upper_text(v@.subrange(0, k as int)) + seq!['-']);
                if n < 2 {
                    let mut z: usize = 0;
                    while z < 2 - n
                        invariant
                            n < 2,
                            z <= 2 - n,
                            out@ == head + Seq::new(z as nat, |i: int| '0'),
                        decreases 2 - n - z,
                    {
                        out.push('0');
                        assert(Seq::new((z + 1) as nat, |i: int| '0') =~= Seq::new(
                            z as nat,
                            |i: int| '0',
                        ).push('0'));
                        z = z + 1;
                    }
                }
                let ghost mid = out@;
                assert(tail.len() == n);
                assert(mid + tail =~= head + pad2(tail));
                let mut j2: usize = k + 1;
                while j2 < v.len()
                    invariant
                        k < v.len(),
                        k + 1 <= j2 <= v.len(),
                        out@ == mid + v@.subrange(k + 1, j2 as int),
                    decreases v.len() - j2,
                {
                    out.push(v[j2]);
                    assert(v@.subrange(k + 1, j2 + 1) =~= v@.subrange(k + 1, j2 as int).push(
                        v@[j2 as int],
                    ));
                    j2 = j2 + 1;
                }
                assert(v@.subrange(k + 1, v@.len() as int) =~= tail);
                assert(v@.subrange(0, k as int) =~= v@.take(k as int));
                assert(out@ =~= canonical_id(id@));
            } else {
                push_upper(&mut out, &v, 0, v.len());
                assert(v@.subrange(0, v@.len() as int) =~= v@);
            }
        },
    }
    string_from_chars(out.as_slice())
}

/// Case-insensitive id match with numeric zero-padding (`br-2` names `BR-02`).
pub fn matches_id(registered: &str, query: &str) -> (r: bool)
    ensures
        r == id_matches(registered@, query@),
{
    let a = canonical(registered);
    let b = canonical(query);
    let va = chars_of(a.as_str());
    let vb = chars_of(b.as_str());
    chars_eq_ic(va.as_slice(), vb.as_slice())
}

/// Rules that run on every profile.
pub fn core_rules() -> (v: Vec<Rule>)
    ensures
        v@ == core_rules_spec(),
{
    let mut v = general_rules();
    let mut w = category_rules();
    v.append(&mut w);
    let mut w = code_list_rules();
    v.append(&mut w);
    let mut w = decimal_rules();
    v.append(&mut w);
    v
}

/// Rules a profile runs besides the core ones.
pub fn extra_rules(profile: Profile) -> (v: Vec<Rule>)
    ensures
        v@ == extra_rules_spec(profile),
{
    match profile {
        Profile::PeppolBis3 => peppol_rules(),
        _ => Vec::new(),
    }
}

/// Every registered rule, core first, then the profiles' extras.
pub fn catalogue() -> (v: Vec<Rule>)
    ensures
        v@ == catalogue_spec(),
{
    let mut v = core_rules();
    let mut w = peppol_rules();
    v.append(&mut w);
    v
}

/// Authority text of the first registered rule that `id` names, or `None`.
pub fn explain(id: &str) -> (r: Option<&'static str>)
    ensures
        r is Some <==> exists|i: int|
            0 <= i < catalogue_spec().len() && id_matches(
                (#[trigger] catalogue_spec()[i]).id@,
                id@,
            ),
        r is Some ==> exists|i: int|
            0 <= i < catalogue_spec().len() && id_matches((#[trigger] catalogue_spec()[i]).id@, id@)
                && r->0 == catalogue_spec()[i].text && forall|j: int|
                0 <= j < i ==> !id_matches(#[trigger] catalogue_spec()[j].id@, id@),
{
    let cat = catalogue();
    let mut i: usize = 0;
    while i < cat.len()
        invariant
            cat@ == catalogue_spec(),
            i <= cat.len(),
            forall|j: int| 0 <= j < i ==> !id_matches(#[trigger] cat@[j].id@, id@),
        decreases cat.len() - i,
    {
        if matches_id(cat[i].id, id) {
            return Some(cat[i].text);
        }
        i = i + 1;
    }
    None
}

/// Matrix cell of a rule under a profile.
pub open spec fn matrix_cell(core: bool, extra: bool) -> Seq<char> {
    if core {
        "CORE"@
    } else if extra {
        "extra"@
    } else {
        "—"@
    }
}

/// Some rule of the sequence has the id.
pub open spec fn has_id(s: Seq<Rule>, id: Seq<char>) -> bool {
    exists|i: int| 0 <= i < s.len() && (#[trigger] s[i]).id@ == id
}

/// The cell text for a rule id under a profile.
pub open spec fn profile_cell(p: Profile, id: Seq<char>) -> Seq<char> {
    " | "@ + matrix_cell(has_id(core_rules_spec(), id), has_id(extra_rules_spec(p), id))
}

/// One matrix row.
pub open spec fn matrix_row(rule: Rule) -> Seq<char> {
    "| "@ + rule.id@ + profile_cell(Profile::En16931, rule.id@) + profile_cell(
        Profile::PeppolBis3,
        rule.id@,
    ) + profile_cell(Profile::Pint, rule.id@) + profile_cell(Profile::PintMy, rule.id@)
        + " |\n"@
}

/// The rows for a sequence of rules.
pub open spec fn matrix_rows(s: Seq<Rule>) -> Seq<char>
    decreases s.len(),
{
    if s.len() == 0 {
        Seq::empty()
    } else {
        matrix_rows(s.drop_last()) + matrix_row(s.last())
    }
}

fn contains_id(v: &Vec<Rule>, id: &str) -> (r: bool)
    ensures
        r == has_id(v@, id@),
{
    let mut i: usize = 0;
    while i < v.len()
        invariant
            i <= v.len(),
            forall|j: int| 0 <= j < i ==> (#[trigger] v@[j]).id@ != id@,
        decreases v.len() - i,
    {
        if str_eq(v[i].id, id) {
            return true;
        }
        i = i + 1;
    }
    false
}

fn append_cell(s: &mut String, core: &Vec<Rule>, p: Profile, id: &str)
    requires
        core@ == core_rules_spec(),
    ensures
        final(s)@ == old(s)@ + profile_cell(p, id@),
{
    let extra = extra_rules(p);
    s.append(" | ");
    if contains_id(core, id) {
        s.append("CORE");
    } else if contains_id(&extra, id) {
        s.append("extra");
    } else {
        s.append("—");
    }
}

fn append_row(s: &mut String, core: &Vec<Rule>, rule: Rule)
    requires
        core@ == core_rules_spec(),
    ensures
        final(s)@ == old(s)@ + matrix_row(rule),
{
    let id = rule.id;
    s.append("| ");
    s.append(id);
    append_cell(s, core, Profile::En16931, id);
    append_cell(s, core, Profile::PeppolBis3, id);
    append_cell(s, core, Profile::Pint, id);
    append_cell(s, core, Profile::PintMy, id);
    s.append(" |\n");
    assert(final(s)@ =~= old(s)@ + matrix_row(rule));
}

/// Matrix heading.
pub open spec fn matrix_header() -> Seq<char> {
    "# Rule matrix\n\nIds **we** emit. Fatal ids comparable to pinned ConnectingEurope / PINT-MY as evidenced by `task svrl`. Not OpenPEPPOL Valid (BIS pin is .sch). Not IRBM Valid.\n\nCORE runs on every profile. Extra rules are `Profile::extra_rules`.\n\n| id | en16931 | peppol | pint | pint-my |\n|---|---|---|---|---|\n"@
}

/// Markdown table of the catalogue against the shipped profiles.
pub fn conformance_matrix() -> (r: String)
    ensures
        r@ == matrix_header() + matrix_rows(catalogue_spec()),
{
    let mut s = owned(
        "# Rule matrix\n\nIds **we** emit. Fatal ids comparable to pinned ConnectingEurope / PINT-MY as evidenced by `task svrl`. Not OpenPEPPOL Valid (BIS pin is .sch). Not IRBM Valid.\n\nCORE runs on every profile. Extra rules are `Profile::extra_rules`.\n\n| id | en16931 | peppol | pint | pint-my |\n|---|---|---|---|---|\n",
    );
    let cat = catalogue();
    let core = core_rules();
    let mut i: usize = 0;
    while i < cat.len()
        invariant
            cat@ == catalogue_spec(),
            core@ == core_rules_spec(),
            i <= cat.len(),
            s@ == matrix_header() + matrix_rows(cat@.take(i as int)),
        decreases cat.len() - i,
    {
        append_row(&mut s, &core, cat[i]);
        assert(cat@.take(i + 1).drop_last() =~= cat@.take(i as int));
        i = i + 1;
    }
    assert(cat@.take(cat@.len() as int) =~= cat@);
    s
}

} // verus!
