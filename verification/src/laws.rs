//! Properties that relate several of the library's functions.
use vstd::prelude::*;
use crate::agent_assets::RepairTarget;
use crate::agents::{block_range, holds_section, is_section, merged_content, splice, tail_after, MANAGED_END, MANAGED_START};
use crate::commands::support::{
    agent_pack_output_name, fail_on_name, output_format_name, parse_agent_pack_format_spec,
    parse_fail_on_spec, parse_output_format_spec, parse_profile_spec, parse_timing_mode_spec,
    profile_name, timing_name, AgentPackOutput, FailOnLevel, OutputFormat, TimingLevel,
};
use crate::doctor::parse_repair_target_spec;
use crate::profiles::{selected_kinds, RuleKind, RuleSelection, ScanProfile};
use crate::report::data::{surviving, ReportItem};
use crate::profiles::normalized_id;
use crate::text::{
    is_prefix, is_suffix, is_ws, lead_ws, lower_char, lower_seq, trail_ws, trim_spec, trim_start_spec, upper_char,
    upper_seq,
};

verus! {

proof fn lemma_lower_ascii_lower(s: Seq<char>)
    requires
        forall|i: int| 0 <= i < s.len() ==> !('A' <= #[trigger] s[i] && s[i] <= 'Z'),
    ensures
        lower_seq(s) == s,
{
    assert(lower_seq(s) =~= s);
}

/// Reading back the name of an output format gives the format.
pub proof fn lemma_output_format_roundtrip(v: OutputFormat)
    ensures
        parse_output_format_spec(output_format_name(v)) == Ok::<OutputFormat, Seq<char>>(v),
{
    reveal_strlit("table");
    reveal_strlit("json");
    reveal_strlit("sarif");
    lemma_lower_ascii_lower(output_format_name(v));
    match v {
        OutputFormat::Table => {},
        OutputFormat::Json => {
            assert("json"@ != "table"@);
        },
        OutputFormat::Sarif => {
            assert("sarif"@[0] != "table"@[0]);
            assert("sarif"@ != "json"@);
        },
    }
}

/// Reading back the name of a profile gives the profile.
pub proof fn lemma_profile_roundtrip(v: ScanProfile)
    ensures
        parse_profile_spec(profile_name(v)) == Ok::<ScanProfile, Seq<char>>(v),
{
    reveal_strlit("basic");
    reveal_strlit("full");
    lemma_lower_ascii_lower(profile_name(v));
}

/// Reading back the name of a failure threshold gives the threshold.
pub proof fn lemma_fail_on_roundtrip(v: FailOnLevel)
    ensures
        parse_fail_on_spec(fail_on_name(v)) == Ok::<crate::report::data::FailOn, Seq<char>>(
            match v {
                FailOnLevel::Off => crate::report::data::FailOn::Off,
                FailOnLevel::Error => crate::report::data::FailOn::Error,
                FailOnLevel::Warning => crate::report::data::FailOn::Warning,
            },
        ),
{
    reveal_strlit("off");
    reveal_strlit("error");
    reveal_strlit("warning");
    lemma_lower_ascii_lower(fail_on_name(v));
}

/// Reading back the name of a timings level gives the matching mode.
pub proof fn lemma_timing_roundtrip(v: TimingLevel)
    ensures
        parse_timing_mode_spec(timing_name(v)) == Ok::<crate::report::data::TimingMode, Seq<char>>(
            match v {
                TimingLevel::Summary => crate::report::data::TimingMode::Summary,
                TimingLevel::Full => crate::report::data::TimingMode::Full,
            },
        ),
{
    reveal_strlit("off");
    reveal_strlit("summary");
    reveal_strlit("full");
    lemma_lower_ascii_lower(timing_name(v));
}

/// Reading back the name of an agent pack output gives the matching format.
pub proof fn lemma_agent_pack_format_roundtrip(v: AgentPackOutput)
    ensures
        parse_agent_pack_format_spec(agent_pack_output_name(v)) == Ok::<
            crate::report::data::AgentPackFormat,
            Seq<char>,
        >(
            match v {
                AgentPackOutput::Json => crate::report::data::AgentPackFormat::Json,
                AgentPackOutput::Markdown => crate::report::data::AgentPackFormat::Markdown,
                AgentPackOutput::Bundle => crate::report::data::AgentPackFormat::Bundle,
            },
        ),
{
    reveal_strlit("json");
    reveal_strlit("markdown");
    reveal_strlit("bundle");
    lemma_lower_ascii_lower(agent_pack_output_name(v));
}

/// Reading back a repair target's key gives the target.
pub proof fn lemma_repair_target_roundtrip(t: RepairTarget)
    ensures
        parse_repair_target_spec(t.key_spec()) == Ok::<RepairTarget, Seq<char>>(t),
{
    reveal_strlit("agents");
    reveal_strlit("agent-bundle");
    reveal_strlit("fix-prompt");
    reveal_strlit("pr-brief");
    reveal_strlit("pr-comment");
    lemma_lower_ascii_lower(t.key_spec());
    match t {
        RepairTarget::Agents => {},
        RepairTarget::AgentBundle => {
            assert("agent-bundle"@ != "agents"@);
        },
        RepairTarget::FixPrompt => {
            assert("fix-prompt"@[0] != "agents"@[0]);
            assert("fix-prompt"@[0] != "agent-bundle"@[0]);
        },
        RepairTarget::PrBrief => {
            assert("pr-brief"@[0] != "agents"@[0]);
            assert("pr-brief"@[0] != "agent-bundle"@[0]);
            assert("pr-brief"@[0] != "fix-prompt"@[0]);
        },
        RepairTarget::PrComment => {
            assert("pr-comment"@[0] != "agents"@[0]);
            assert("pr-comment"@[0] != "agent-bundle"@[0]);
            assert("pr-comment"@[0] != "fix-prompt"@[0]);
            assert("pr-comment"@[3] != "pr-brief"@[3]);
        },
    }
}

/// Applying a baseline a second time drops nothing more.
pub proof fn lemma_baseline_idempotent(items: Seq<ReportItem>, keys: Seq<Seq<char>>)
    ensures
        surviving(surviving(items, keys), keys) == surviving(items, keys),
    decreases items.len(),
{
    if items.len() > 0 {
        lemma_baseline_idempotent(items.drop_last(), keys);
        let s = surviving(items.drop_last(), keys);
        if crate::report::data::survives(items.last(), keys) {
            assert(s.push(items.last()).drop_last() =~= s);
        }
    }
}

/// The rules a selection runs are rules of the profile that the selection
/// allows, in the profile's order.
pub proof fn lemma_selection_narrows(kinds: Seq<RuleKind>, sel: RuleSelection)
    ensures
        forall|i: int|
            0 <= i < selected_kinds(kinds, sel).len() ==> kinds.contains(
                #[trigger] selected_kinds(kinds, sel)[i],
            ) && sel.allows_spec(selected_kinds(kinds, sel)[i].id_spec()),
        selected_kinds(kinds, sel).len() <= kinds.len(),
    decreases kinds.len(),
{
    if kinds.len() > 0 {
        let p = kinds.drop_last();
        lemma_selection_narrows(p, sel);
        let s = selected_kinds(kinds, sel);
        let sp = selected_kinds(p, sel);
        assert forall|i: int| 0 <= i < s.len() implies kinds.contains(#[trigger] s[i]) && sel.allows_spec(
            s[i].id_spec(),
        ) by {
            if i < sp.len() {
                assert(s[i] == sp[i]);
                let j = choose|j: int| 0 <= j < p.len() && p[j] == sp[i];
                assert(kinds[j] == p[j]);
            } else {
                assert(s[i] == kinds.last());
                assert(kinds[kinds.len() - 1] == kinds.last());
            }
        }
    }
}

/// With no rule requested or skipped, a profile runs all its rules.
pub proof fn lemma_empty_selection_runs_all(kinds: Seq<RuleKind>, sel: RuleSelection)
    requires
        sel.included@.len() == 0,
        sel.excluded@.len() == 0,
    ensures
        selected_kinds(kinds, sel) == kinds,
    decreases kinds.len(),
{
    if kinds.len() > 0 {
        lemma_empty_selection_runs_all(kinds.drop_last(), sel);
        assert(crate::text::views(sel.excluded@) =~= Seq::<Seq<char>>::empty());
        assert(kinds.drop_last().push(kinds.last()) =~= kinds);
    }
}

/// What stands after the section is kept, less a line break the section
/// already ends with.
pub open spec fn kept_tail(block: Seq<char>, tail: Seq<char>) -> Seq<char> {
    if tail.len() > 0 && tail[0] == '\n' && block.len() > 0 && block.last() == '\n' {
        tail.drop_first()
    } else {
        tail
    }
}

proof fn lemma_splice(head0: Seq<char>, block: Seq<char>, tail: Seq<char>)
    ensures
        is_prefix(head0, splice(head0, block, tail)),
        is_suffix(kept_tail(block, tail), splice(head0, block, tail)),
        crate::text::contains_spec(splice(head0, block, tail), block),
{
    let head = if head0.len() > 0 && head0.last() == '\n' {
        head0
    } else {
        head0.push('\n')
    };
    let m = splice(head0, block, tail);
    let k = kept_tail(block, tail);
    assert(m.take(head0.len() as int) =~= head0);
    assert(m.skip(m.len() - k.len()) =~= k);
    assert(crate::text::occurs_at(m, block, head.len() as int)) by {
        assert(m.subrange(head.len() as int, head.len() + block.len() as int) =~= block);
    }
}

/// Merging the managed section into an existing AGENTS.md that has one keeps
/// what stands before the section and what stands after it (less a line break
/// the section already ends with), and holds the new section.
pub proof fn lemma_merge_keeps_custom_content(content: Seq<char>, block: Seq<char>, start: int, end: int)
    requires
        block_range(content) == Some((start, end)),
    ensures
        is_prefix(content.take(start), merged_content(Some(content), block)),
        is_suffix(kept_tail(block, content.skip(end)), merged_content(Some(content), block)),
        crate::text::contains_spec(merged_content(Some(content), block), block),
{
    assert(merged_content(Some(content), block) == splice(content.take(start), block, content.skip(end)));
    lemma_splice(content.take(start), block, content.skip(end));
}

/// `find_spec` gives the first occurrence.
#[verifier::spinoff_prover]
#[verifier::rlimit(80)]
proof fn lemma_find_first(s: Seq<char>, n: Seq<char>, i: int)
    requires
        crate::text::occurs_at(s, n, i),
        forall|j: int| 0 <= j < i ==> !crate::text::occurs_at(s, n, j),
    ensures
        crate::text::find_spec(s, n) == Some(i),
{
    assert(crate::text::contains_spec(s, n));
    let k = crate::text::find_spec(s, n)->0;
    assert(crate::text::occurs_at(s, n, k) && forall|j: int| 0 <= j < k ==> !crate::text::occurs_at(s, n, j));
    if k < i {
        assert(!crate::text::occurs_at(s, n, k));
    } else if i < k {
        assert(!crate::text::occurs_at(s, n, i));
    }
}

#[verifier::spinoff_prover]
#[verifier::rlimit(80)]
proof fn lemma_start_found(m: Seq<char>, b: Seq<char>, s: int)
    requires
        crate::text::occurs_at(m, b, s),
        b.len() >= MANAGED_START@.len(),
        b.take(MANAGED_START@.len() as int) == MANAGED_START@,
        forall|j: int| 0 <= j < s ==> !crate::text::occurs_at(m, MANAGED_START@, j),
    ensures
        crate::text::find_spec(m, MANAGED_START@) == Some(s),
{
    let sl = MANAGED_START@.len() as int;
    assert(m.subrange(s, s + b.len()) == b);
    assert(m.subrange(s, s + sl) =~= b.take(sl));
    lemma_find_first(m, MANAGED_START@, s);
}

#[verifier::spinoff_prover]
#[verifier::rlimit(80)]
proof fn lemma_end_found(m: Seq<char>, b: Seq<char>, s: int, q: int)
    requires
        crate::text::occurs_at(m, b, s),
        crate::text::occurs_at(b, MANAGED_END@, q),
        forall|j: int| 0 <= j < q ==> !crate::text::occurs_at(b, MANAGED_END@, j),
        forall|j: int| 0 <= j < s ==> !crate::text::occurs_at(m, MANAGED_END@, j),
    ensures
        crate::text::find_spec(m, MANAGED_END@) == Some(s + q),
{
    let el = MANAGED_END@.len() as int;
    assert(m.subrange(s, s + b.len()) == b);
    assert(m.subrange(s + q, s + q + el) =~= b.subrange(q, q + el));
    assert forall|j: int| 0 <= j < s + q implies !crate::text::occurs_at(m, MANAGED_END@, j) by {
        if j >= s && crate::text::occurs_at(m, MANAGED_END@, j) {
            let jj = j - s;
            assert(b.subrange(jj, jj + el) =~= m.subrange(j, j + el));
            assert(crate::text::occurs_at(b, MANAGED_END@, jj));
        }
    }
    lemma_find_first(m, MANAGED_END@, s + q);
}

/// Where the managed section `m` holds at `s` is found.
#[verifier::spinoff_prover]
#[verifier::rlimit(80)]
proof fn lemma_section_range(m: Seq<char>, b: Seq<char>, s: int)
    requires
        holds_section(m, b, s),
    ensures
        block_range(m) == Some((s, s + b.len() - 1)),
{
    let q = b.len() - MANAGED_END@.len() - 1;
    lemma_start_found(m, b, s);
    lemma_end_found(m, b, s, q);
}

/// Merging a managed section into AGENTS.md that already holds that very
/// section as its managed section changes nothing: re-running `voc init`
/// with the same section leaves the file as it is.
#[verifier::spinoff_prover]
#[verifier::rlimit(80)]
pub proof fn lemma_merge_same_section_unchanged(m: Seq<char>, b: Seq<char>, s: int)
    requires
        holds_section(m, b, s),
    ensures
        merged_content(Some(m), b) == m,
{
    lemma_section_range(m, b, s);
    let e = s + b.len() - 1;
    let head = m.take(s);
    let tail = m.skip(e);
    assert(m.subrange(s, s + b.len()) == b);
    assert(head.last() == '\n');
    assert(tail[0] == b.last()) by {
        assert(m[e] == m.subrange(s, s + b.len())[b.len() - 1]);
    }
    assert(tail_after(b, tail) =~= m.skip(s + b.len()));
    assert(m =~= m.take(s) + m.subrange(s, s + b.len()) + m.skip(s + b.len()));
    assert(splice(head, b, tail) =~= m);
}

/// A new AGENTS.md holds its managed section, so running `voc init` a second
/// time with the same section leaves it unchanged.
#[verifier::spinoff_prover]
#[verifier::rlimit(80)]
pub proof fn lemma_init_twice_unchanged(b: Seq<char>)
    requires
        is_section(b),
    ensures
        merged_content(Some(merged_content(None, b)), b) == merged_content(None, b),
{
    let h = "# AGENTS.md\n\n"@;
    let m = h + b;
    reveal_strlit("# AGENTS.md\n\n");
    reveal_strlit("<!-- verifyos-cli:agents:start -->");
    reveal_strlit("<!-- verifyos-cli:agents:end -->");
    assert(h.len() == 13);
    assert(MANAGED_START@[0] == '<' && MANAGED_END@[0] == '<');
    assert(m.subrange(13, 13 + b.len() as int) =~= b);
    assert forall|j: int| 0 <= j < 13 implies !crate::text::occurs_at(m, MANAGED_START@, j)
        && !crate::text::occurs_at(m, MANAGED_END@, j) by {
        assert(m[j] == h[j]);
        if crate::text::occurs_at(m, MANAGED_START@, j) {
            assert(m.subrange(j, j + MANAGED_START@.len())[0] == m[j]);
        }
        if crate::text::occurs_at(m, MANAGED_END@, j) {
            assert(m.subrange(j, j + MANAGED_END@.len())[0] == m[j]);
        }
    }
    assert(m[12] == '\n');
    assert(holds_section(m, b, 13));
    lemma_merge_same_section_unchanged(m, b, 13);
}

proof fn lemma_trail_ws_bound(s: Seq<char>)
    ensures
        trail_ws(s) <= s.len(),
        trail_ws(s) < s.len() ==> !is_ws(s[s.len() - trail_ws(s) - 1]),
    decreases s.len(),
{
    if s.len() > 0 && is_ws(s.last()) {
        lemma_trail_ws_bound(s.drop_last());
        let t = s.drop_last();
        if trail_ws(s) < s.len() {
            assert(t[t.len() - trail_ws(t) - 1] == s[s.len() - trail_ws(s) - 1]);
        }
    }
}

proof fn lemma_lead_ws_first(s: Seq<char>)
    ensures
        lead_ws(s) <= s.len(),
        lead_ws(s) < s.len() ==> !is_ws(s[lead_ws(s) as int]),
    decreases s.len(),
{
    if s.len() > 0 && is_ws(s[0]) {
        lemma_lead_ws_first(s.drop_first());
        if lead_ws(s) < s.len() {
            assert(s.drop_first()[lead_ws(s.drop_first()) as int] == s[lead_ws(s) as int]);
        }
    }
}

/// A trimmed text starts and ends with a character that is not whitespace.
proof fn lemma_trimmed_ends(x: Seq<char>)
    ensures
        trim_spec(x).len() > 0 ==> !is_ws(trim_spec(x)[0]) && !is_ws(trim_spec(x).last()),
{
    let u = trim_start_spec(x);
    lemma_lead_ws_first(x);
    lemma_trail_ws_bound(u);
    let t = trim_spec(x);
    if t.len() > 0 {
        assert(t[0] == u[0]);
        assert(u[0] == x[lead_ws(x) as int]);
        assert(t.last() == u[u.len() - trail_ws(u) - 1]);
    }
}

proof fn lemma_upper_keeps_ws(c: char)
    ensures
        is_ws(upper_char(c)) == is_ws(c),
        upper_char(upper_char(c)) == upper_char(c),
{
    if 'a' <= c && c <= 'z' {
        let n = (c as u32) - 32;
        assert(65 <= n <= 90);
        assert(upper_char(c) as u32 == n);
    }
}

/// Normalizing a rule identifier twice gives what normalizing it once does.
pub proof fn lemma_normalize_idempotent(rule_id: Seq<char>)
    ensures
        normalized_id(normalized_id(rule_id)) == normalized_id(rule_id),
{
    let t = trim_spec(rule_id);
    let u = upper_seq(t);
    lemma_trimmed_ends(rule_id);
    assert forall|i: int| 0 <= i < u.len() implies is_ws(#[trigger] u[i]) == is_ws(t[i])
        && upper_char(u[i]) == u[i] by {
        lemma_upper_keeps_ws(t[i]);
    }
    if u.len() > 0 {
        lemma_lead_ws_char_zero(u);
        lemma_trail_ws_char_zero(u);
        assert(trim_start_spec(u) =~= u);
        assert(trim_spec(u) =~= u);
    } else {
        assert(trim_spec(u) =~= u);
    }
    assert(upper_seq(trim_spec(u)) =~= u);
}

proof fn lemma_lead_ws_char_zero(u: Seq<char>)
    requires
        u.len() > 0,
        !is_ws(u[0]),
    ensures
        lead_ws(u) == 0,
{
}

proof fn lemma_trail_ws_char_zero(u: Seq<char>)
    requires
        u.len() > 0,
        !is_ws(u.last()),
    ensures
        trail_ws(u) == 0,
{
}

} // verus!
