//! The managed section of AGENTS.md, and the fix prompt and PR brief handed to
//! coding agents.
use vstd::prelude::*;
use crate::parsers::macho_scanner::text_key;
use crate::profiles::{item_view, listed_in, inventory_entries, rule_inventory, RuleInventoryItem};
use crate::report::agent_pack::fview;
use crate::report::data::{AgentFinding, AgentPack};
use crate::rules::base::{category_label, category_name, severity_label, severity_name};
use crate::sorting::{keeps_ties_by, lemma_keeps_ties_pointwise, sort_by_key, sorted_by_key, SortKey};
use crate::text::{
    chars_of, concat, decimal, find, find_spec, join, occurs_at, owned, push_char, push_decimal,
    push_str, seq_join, slice_string, str_eq, trim, trim_end, trim_end_spec, trim_spec, views,
};

verus! {

broadcast use vstd::seq_lib::group_to_multiset_ensures;

pub const MANAGED_START: &'static str = "<!-- verifyos-cli:agents:start -->";

pub const MANAGED_END: &'static str = "<!-- verifyos-cli:agents:end -->";

/// What the next-command suggestions are built from.
pub struct CommandHints {
    pub app_path: Option<String>,
    pub baseline_path: Option<String>,
    pub agent_pack_dir: Option<String>,
    pub profile: Option<String>,
    pub shell_script: bool,
    pub fix_prompt_path: Option<String>,
    pub pr_brief_path: Option<String>,
}

/// Where the managed section lies: from the first start marker to the end of
/// the first end marker.
pub open spec fn block_range(content: Seq<char>) -> Option<(int, int)> {
    match (find_spec(content, MANAGED_START@), find_spec(content, MANAGED_END@)) {
        (Some(s), Some(e)) => Some((s, e + MANAGED_END@.len())),
        _ => None,
    }
}

#[verifier::spinoff_prover]
#[verifier::rlimit(100)]
pub fn managed_block_range(content: &str) -> (r: Option<(usize, usize)>)
    ensures
        match r {
            Some((s, e)) => block_range(content@) == Some((s as int, e as int)) && s <= content@.len()
                && e <= content@.len(),
            None => block_range(content@) is None,
        },
{
    let start = find(content, MANAGED_START);
    let end_marker = find(content, MANAGED_END);
    let n = chars_of(MANAGED_END).len();
    let total = chars_of(content).len();
    match (start, end_marker) {
        (Some(s), Some(e)) => {
            assert(occurs_at(content@, MANAGED_END@, e as int));
            Some((s, e + n))
        },
        _ => None,
    }
}

/// A managed section as `build_managed_block` writes it: the start marker,
/// the end marker at its end followed by a line break, and no end marker
/// before that.
pub open spec fn is_section(b: Seq<char>) -> bool {
    let q = b.len() - MANAGED_END@.len() - 1;
    &&& b.len() >= MANAGED_START@.len() + MANAGED_END@.len() + 1
    &&& b.take(MANAGED_START@.len() as int) == MANAGED_START@
    &&& crate::text::occurs_at(b, MANAGED_END@, q)
    &&& b.last() == '\n'
    &&& forall|j: int| 0 <= j < q ==> !crate::text::occurs_at(b, MANAGED_END@, j)
}

/// `m` holds section `b` at `s` as its managed section: a line break before
/// it, and no marker of a section earlier in `m`.
pub open spec fn holds_section(m: Seq<char>, b: Seq<char>, s: int) -> bool {
    &&& is_section(b)
    &&& 0 < s
    &&& m[s - 1] == '\n'
    &&& crate::text::occurs_at(m, b, s)
    &&& forall|j: int| 0 <= j < s ==> !crate::text::occurs_at(m, MANAGED_START@, j)
    &&& forall|j: int| 0 <= j < s ==> !crate::text::occurs_at(m, MANAGED_END@, j)
}

/// The text after a replaced managed section: on a line of its own, and
/// without repeating the line break the section ends with, so that merging
/// the same section again changes nothing.
pub open spec fn tail_after(block: Seq<char>, tail: Seq<char>) -> Seq<char> {
    if tail.len() > 0 && tail[0] == '\n' {
        if block.len() > 0 && block.last() == '\n' {
            tail.drop_first()
        } else {
            tail
        }
    } else if tail.len() > 0 {
        seq!['\n'] + tail
    } else {
        tail
    }
}

/// AGENTS.md with its managed section replaced: what stood before it (ending
/// in a line break), the section, and what stood after it.
pub open spec fn splice(head0: Seq<char>, block: Seq<char>, tail: Seq<char>) -> Seq<char> {
    let head = if head0.len() > 0 && head0.last() == '\n' {
        head0
    } else {
        head0.push('\n')
    };
    head + block + tail_after(block, tail)
}

/// Joining the managed section into an existing AGENTS.md.
pub open spec fn merged_content(existing: Option<Seq<char>>, block: Seq<char>) -> Seq<char> {
    match existing {
        None => "# AGENTS.md\n\n"@ + block,
        Some(c) => match block_range(c) {
            Some((s, e)) => splice(c.take(s), block, c.skip(e)),
            None => if trim_spec(c).len() == 0 {
                "# AGENTS.md\n\n"@ + block
            } else {
                trim_end_spec(c) + "\n\n"@ + block + seq!['\n']
            },
        },
    }
}

/// Replaces the managed section found between `start` and `end`.
fn replace_block(content: &str, start: usize, end: usize, managed_block: &str) -> (r: String)
    requires
        start <= content@.len(),
        end <= content@.len(),
    ensures
        r@ == splice(content@.take(start as int), managed_block@, content@.skip(end as int)),
{
    let v = chars_of(content);
    let b = chars_of(managed_block);
    let mut next = slice_string(&v, 0, start);
    assert(next@ =~= content@.take(start as int));
    if !(start > 0 && v[start - 1] == '\n') {
        push_char(&mut next, '\n');
    }
    push_str(&mut next, managed_block);
    let ghost tail0 = content@.skip(end as int);
    let tail = if end < v.len() && v[end] == '\n' {
        if b.len() > 0 && b[b.len() - 1] == '\n' {
            let t = slice_string(&v, end + 1, v.len());
            assert(t@ =~= tail0.drop_first());
            t
        } else {
            let t = slice_string(&v, end, v.len());
            assert(t@ =~= tail0);
            t
        }
    } else {
        if end < v.len() {
            push_char(&mut next, '\n');
        }
        let t = slice_string(&v, end, v.len());
        assert(t@ =~= tail0);
        t
    };
    push_str(&mut next, tail.as_str());
    proof {
        if end < v.len() && v[end as int] != '\n' {
            assert(tail_after(managed_block@, tail0) =~= seq!['\n'] + tail0);
        }
    }
    next
}

/// Adds the managed section to content that has none.
fn append_block(content: &str, managed_block: &str) -> (r: String)
    ensures
        r@ == if trim_spec(content@).len() == 0 {
            "# AGENTS.md\n\n"@ + managed_block@
        } else {
            trim_end_spec(content@) + "\n\n"@ + managed_block@ + seq!['\n']
        },
{
    let t = trim(content);
    if t.as_str().is_empty() {
        concat("# AGENTS.md\n\n", managed_block)
    } else {
        let mut next = trim_end(content);
        push_str(&mut next, "\n\n");
        push_str(&mut next, managed_block);
        push_char(&mut next, '\n');
        next
    }
}

/// Puts the managed section into AGENTS.md: replaces an existing section,
/// appends one to other content, or starts a new file.
pub fn merge_agents_content(existing: Option<&str>, managed_block: &str) -> (r: String)
    ensures
        r@ == merged_content(
            match existing {
                Some(c) => Some(c@),
                None => None,
            },
            managed_block@,
        ),
        existing matches Some(c) ==> ((exists|s: int| holds_section(c@, managed_block@, s)) ==> r@ == c@),
{
    proof {
        if let Some(c) = existing {
            if exists|s: int| holds_section(c@, managed_block@, s) {
                let s = choose|s: int| holds_section(c@, managed_block@, s);
                crate::laws::lemma_merge_same_section_unchanged(c@, managed_block@, s);
            }
        }
    }
    match existing {
        None => concat("# AGENTS.md\n\n", managed_block),
        Some(content) => match managed_block_range(content) {
            Some((start, end)) => replace_block(content, start, end, managed_block),
            None => append_block(content, managed_block),
        },
    }
}

/// Characters a shell word may hold unquoted.
pub open spec fn shell_safe(c: char) -> bool {
    ('a' <= c && c <= 'z') || ('A' <= c && c <= 'Z') || ('0' <= c && c <= '9') || c == '/' || c
        == '.' || c == '_' || c == '-'
}

/// Each `'` replaced by `'"'"'`.
pub open spec fn escape_quotes(s: Seq<char>) -> Seq<char>
    decreases s.len(),
{
    if s.len() == 0 {
        Seq::empty()
    } else {
        escape_quotes(s.drop_last()) + if s.last() == '\'' {
            seq!['\'', '"', '\'', '"', '\'']
        } else {
            seq![s.last()]
        }
    }
}

/// A value as one shell word: as is when every character is safe, else in
/// single quotes.
pub open spec fn shell_quoted(s: Seq<char>) -> Seq<char> {
    if forall|i: int| 0 <= i < s.len() ==> shell_safe(#[trigger] s[i]) {
        s
    } else {
        seq!['\''] + escape_quotes(s) + seq!['\'']
    }
}

pub fn shell_quote(value: &str) -> (r: String)
    ensures
        r@ == shell_quoted(value@),
{
    let v = chars_of(value);
    let mut safe = true;
    let mut i: usize = 0;
    while i < v.len()
        invariant
            0 <= i <= v@.len(),
            v@ == value@,
            safe == forall|j: int| 0 <= j < i ==> shell_safe(#[trigger] v@[j]),
        decreases v@.len() - i,
    {
        let c = v[i];
        let ok = ('a' <= c && c <= 'z') || ('A' <= c && c <= 'Z') || ('0' <= c && c <= '9') || c
            == '/' || c == '.' || c == '_' || c == '-';
        if !ok {
            safe = false;
        }
        i = i + 1;
    }
    if safe {
        return owned(value);
    }
    let mut out = String::new();
    push_char(&mut out, '\'');
    let ghost start = out@;
    let mut k: usize = 0;
    while k < v.len()
        invariant
            0 <= k <= v@.len(),
            start == seq!['\''],
            out@ == start + escape_quotes(v@.take(k as int)),
        decreases v@.len() - k,
    {
        assert(v@.take(k + 1).drop_last() =~= v@.take(k as int));
        let c = v[k];
        if c == '\'' {
            push_str(&mut out, "'\"'\"'");
            proof {
                reveal_strlit("'\"'\"'");
            }
            assert(out@ =~= start + escape_quotes(v@.take(k + 1)));
        } else {
            push_char(&mut out, c);
            assert(out@ =~= start + escape_quotes(v@.take(k + 1)));
        }
        k = k + 1;
    }
    assert(v@.take(v@.len() as int) =~= v@);
    push_char(&mut out, '\'');
    out
}

pub open spec fn rank_of(p: Seq<char>) -> u8 {
    if p == "high"@ {
        0
    } else if p == "medium"@ {
        1
    } else if p == "low"@ {
        2
    } else {
        3
    }
}

/// The order of priorities: high, medium, low, then anything else.
pub fn priority_rank(priority: &str) -> (r: u8)
    ensures
        r == rank_of(priority@),
{
    if str_eq(priority, "high") {
        0
    } else if str_eq(priority, "medium") {
        1
    } else if str_eq(priority, "low") {
        2
    } else {
        3
    }
}

pub open spec fn inventory_row_text(item: RuleInventoryItem) -> Seq<char> {
    "| `"@ + item.rule_id@ + "` | "@ + item.name@ + " | `"@ + category_name(item.category) + "` | `"@
        + severity_name(item.severity) + "` | `"@ + seq_join(views(item.default_profiles@), ", "@)
        + "` |\n"@
}

/// One row of the rule inventory table.
pub fn inventory_row(item: &RuleInventoryItem) -> (r: String)
    ensures
        r@ == inventory_row_text(*item),
{
    let mut out = concat("| `", item.rule_id.as_str());
    push_str(&mut out, "` | ");
    push_str(&mut out, item.name.as_str());
    push_str(&mut out, " | `");
    push_str(&mut out, category_label(item.category));
    push_str(&mut out, "` | `");
    push_str(&mut out, severity_label(item.severity));
    push_str(&mut out, "` | `");
    let joined = join(&item.default_profiles, ", ");
    push_str(&mut out, joined.as_str());
    push_str(&mut out, "` |\n");
    out
}

pub open spec fn str_or(o: Option<String>, d: Seq<char>) -> Seq<char> {
    match o {
        Some(s) => s@,
        None => d,
    }
}

fn str_or_exec<'a>(o: &'a Option<String>, d: &'a str) -> (r: &'a str)
    ensures
        r@ == str_or(*o, d@),
{
    match o {
        Some(s) => s.as_str(),
        None => d,
    }
}

/// `"{label}`{value}`\n"` when the value is present.
pub open spec fn opt_line(label: Seq<char>, o: Option<String>, end: Seq<char>) -> Seq<char> {
    match o {
        Some(v) => label + v@ + end,
        None => Seq::empty(),
    }
}

fn push_opt_line(out: &mut String, label: &str, o: &Option<String>, end: &str)
    ensures
        final(out)@ == old(out)@ + opt_line(label@, *o, end@),
{
    if let Some(v) = o {
        push_str(out, label);
        push_str(out, v.as_str());
        push_str(out, end);
    }
}

/// `"voc --app {app} --profile {profile}{rest}\n"`.
pub open spec fn voc_line(q: Seq<char>, profile: Seq<char>, rest: Seq<char>) -> Seq<char> {
    "voc --app "@ + q + " --profile "@ + profile + rest + "\n"@
}

fn push_voc_line(out: &mut String, q: &str, profile: &str, rest: &str)
    ensures
        final(out)@ == old(out)@ + voc_line(q@, profile@, rest@),
{
    push_str(out, "voc --app ");
    push_str(out, q);
    push_str(out, " --profile ");
    push_str(out, profile);
    push_str(out, rest);
    push_str(out, "\n");
}

/// The `voc init` command that regenerates the agent assets.
pub open spec fn init_command(h: CommandHints, q: Seq<char>, profile: Seq<char>, qd: Seq<char>) -> Seq<char> {
    "voc init --from-scan "@ + q + " --profile "@ + profile + (match h.baseline_path {
        Some(b) => " --baseline "@ + shell_quoted(b@),
        None => Seq::empty(),
    }) + " --agent-pack-dir "@ + qd + " --write-commands"@ + (if h.shell_script {
        " --shell-script"@
    } else {
        Seq::empty()
    })
}

/// The commands block of the next-commands section.
pub open spec fn command_block(h: CommandHints, app: Seq<char>) -> Seq<char> {
    let profile = str_or(h.profile, "full"@);
    let dir = str_or(h.agent_pack_dir, ".verifyos-agent"@);
    let q = shell_quoted(app);
    let qd = shell_quoted(dir);
    "```bash\n"@ + voc_line(q, profile, Seq::empty()) + voc_line(q, profile, " --format json > report.json"@)
        + voc_line(q, profile, " --agent-pack "@ + qd + " --agent-pack-format bundle"@)
        + init_command(h, q, profile, qd) + "\n"@ + "```\n\n"@
}

/// The heading of the next-commands section and the paths it points at.
pub open spec fn next_commands_head(h: CommandHints) -> Seq<char> {
    let dir = str_or(h.agent_pack_dir, ".verifyos-agent"@);
    "### Next Commands\n\n"@ + "Use these exact commands after each patch batch:\n\n"@ + (if h.shell_script {
        "- Shortcut script: `"@ + dir + "/next-steps.sh`\n\n"@
    } else {
        Seq::empty()
    }) + opt_line("- Agent fix prompt: `"@, h.fix_prompt_path, "`\n\n"@) + opt_line(
        "- PR brief: `"@,
        h.pr_brief_path,
        "`\n\n"@,
    )
}

/// The next-commands section, when the hints name an app.
pub open spec fn next_commands_text(h: CommandHints) -> Seq<char> {
    match h.app_path {
        None => Seq::empty(),
        Some(app) => next_commands_head(h) + command_block(h, app@),
    }
}

#[verifier::spinoff_prover]
fn push_next_commands_head(out: &mut String, hints: &CommandHints)
    ensures
        final(out)@ == old(out)@ + next_commands_head(*hints),
{
    let ghost start = out@;
    let dir = str_or_exec(&hints.agent_pack_dir, ".verifyos-agent");
    push_str(out, "### Next Commands\n\n");
    push_str(out, "Use these exact commands after each patch batch:\n\n");
    if hints.shell_script {
        push_str(out, "- Shortcut script: `");
        push_str(out, dir);
        push_str(out, "/next-steps.sh`\n\n");
    }
    push_opt_line(out, "- Agent fix prompt: `", &hints.fix_prompt_path, "`\n\n");
    push_opt_line(out, "- PR brief: `", &hints.pr_brief_path, "`\n\n");
    assert(out@ =~= start + next_commands_head(*hints));
}

fn push_init_command(out: &mut String, hints: &CommandHints, q: &str, profile: &str, qd: &str)
    ensures
        final(out)@ == old(out)@ + init_command(*hints, q@, profile@, qd@),
{
    let ghost start = out@;
    push_str(out, "voc init --from-scan ");
    push_str(out, q);
    push_str(out, " --profile ");
    push_str(out, profile);
    let ghost a = out@;
    if let Some(b) = &hints.baseline_path {
        push_str(out, " --baseline ");
        let qb = shell_quote(b.as_str());
        push_str(out, qb.as_str());
    }
    let ghost b = out@;
    push_str(out, " --agent-pack-dir ");
    push_str(out, qd);
    push_str(out, " --write-commands");
    let ghost c = out@;
    if hints.shell_script {
        push_str(out, " --shell-script");
    }
    assert(out@ =~= start + init_command(*hints, q@, profile@, qd@));
}

#[verifier::spinoff_prover]
fn push_command_block(out: &mut String, hints: &CommandHints, app: &str)
    ensures
        final(out)@ == old(out)@ + command_block(*hints, app@),
{
    let ghost start = out@;
    let profile = str_or_exec(&hints.profile, "full");
    let dir = str_or_exec(&hints.agent_pack_dir, ".verifyos-agent");
    let q = shell_quote(app);
    let qd = shell_quote(dir);
    push_str(out, "```bash\n");
    let empty = String::new();
    push_voc_line(out, q.as_str(), profile, empty.as_str());
    push_voc_line(out, q.as_str(), profile, " --format json > report.json");
    let mut rest = concat(" --agent-pack ", qd.as_str());
    push_str(&mut rest, " --agent-pack-format bundle");
    push_voc_line(out, q.as_str(), profile, rest.as_str());
    push_init_command(out, hints, q.as_str(), profile, qd.as_str());
    push_str(out, "\n");
    push_str(out, "```\n\n");
    assert(out@ =~= start + command_block(*hints, app@));
}

/// Appends the next-commands section when the hints name an app.
pub fn append_next_commands(out: &mut String, hints: &CommandHints)
    ensures
        final(out)@ == old(out)@ + next_commands_text(*hints),
{
    let app = match &hints.app_path {
        None => {
            assert(old(out)@ + next_commands_text(*hints) =~= old(out)@);
            return;
        },
        Some(a) => a.as_str(),
    };
    let ghost start = out@;
    push_next_commands_head(out, hints);
    push_command_block(out, hints, app);
    assert(out@ =~= start + next_commands_text(*hints));
}

/// The validation commands of the fix prompt and the PR brief; the brief adds
/// the doctor command when a baseline is known.
pub open spec fn validation_text(h: CommandHints, with_doctor: bool) -> Seq<char> {
    match h.app_path {
        None => Seq::empty(),
        Some(app) => {
            let profile = str_or(h.profile, "full"@);
            let dir = str_or(h.agent_pack_dir, ".verifyos-agent"@);
            let q = shell_quoted(app@);
            let qd = shell_quoted(dir);
            "```bash\n"@ + voc_line(q, profile, Seq::empty()) + voc_line(
                q,
                profile,
                " --agent-pack "@ + qd + " --agent-pack-format bundle"@,
            ) + (match h.baseline_path {
                Some(b) => if with_doctor {
                    "voc doctor --fix --from-scan "@ + q + " --profile "@ + profile + " --baseline "@
                        + shell_quoted(b@) + " --output-dir .verifyos --open-pr-brief\n"@
                } else {
                    Seq::empty()
                },
                None => Seq::empty(),
            }) + "```\n"@
        },
    }
}

#[verifier::spinoff_prover]
fn push_validation(out: &mut String, hints: &CommandHints, with_doctor: bool)
    ensures
        final(out)@ == old(out)@ + validation_text(*hints, with_doctor),
{
    let app = match &hints.app_path {
        None => {
            assert(old(out)@ + validation_text(*hints, with_doctor) =~= old(out)@);
            return;
        },
        Some(a) => a.as_str(),
    };
    let ghost start = out@;
    let profile = str_or_exec(&hints.profile, "full");
    let dir = str_or_exec(&hints.agent_pack_dir, ".verifyos-agent");
    let q = shell_quote(app);
    let qd = shell_quote(dir);
    push_str(out, "```bash\n");
    let empty = String::new();
    push_voc_line(out, q.as_str(), profile, empty.as_str());
    let mut rest = concat(" --agent-pack ", qd.as_str());
    push_str(&mut rest, " --agent-pack-format bundle");
    push_voc_line(out, q.as_str(), profile, rest.as_str());
    let ghost mid = out@;
    if let Some(b) = &hints.baseline_path {
        if with_doctor {
            push_str(out, "voc doctor --fix --from-scan ");
            push_str(out, q.as_str());
            push_str(out, " --profile ");
            push_str(out, profile);
            push_str(out, " --baseline ");
            let qb = shell_quote(b.as_str());
            push_str(out, qb.as_str());
            push_str(out, " --output-dir .verifyos --open-pr-brief\n");
        }
    }
    push_str(out, "```\n");
    assert(out@ =~= start + validation_text(*hints, with_doctor));
}

/// A finding ordered for patching: by priority, then fix scope, then rule.
pub struct Ranked {
    pub finding: AgentFinding,
}

pub open spec fn rank_key(f: AgentFinding) -> Seq<u128> {
    seq![rank_of(f.priority@) as u128] + text_key(f.suggested_fix_scope@) + seq![0u128] + text_key(
        f.rule_id@,
    )
}

impl SortKey for Ranked {
    open spec fn key(&self) -> Seq<u128> {
        rank_key(self.finding)
    }

    fn key_vec(&self) -> (r: Vec<u128>) {
        let mut v: Vec<u128> = Vec::new();
        v.push(priority_rank(self.finding.priority.as_str()) as u128);
        let a = crate::text::text_key_vec(self.finding.suggested_fix_scope.as_str());
        let b = crate::text::text_key_vec(self.finding.rule_id.as_str());
        let ghost h0 = v@;
        let mut i: usize = 0;
        while i < a.len()
            invariant
                0 <= i <= a@.len(),
                v@ == h0 + a@.take(i as int),
            decreases a@.len() - i,
        {
            v.push(a[i]);
            assert(v@ =~= h0 + a@.take(i + 1));
            i = i + 1;
        }
        assert(a@.take(a@.len() as int) =~= a@);
        v.push(0);
        let ghost h1 = v@;
        let mut j: usize = 0;
        while j < b.len()
            invariant
                0 <= j <= b@.len(),
                v@ == h1 + b@.take(j as int),
            decreases b@.len() - j,
        {
            v.push(b[j]);
            assert(v@ =~= h1 + b@.take(j + 1));
            j = j + 1;
        }
        assert(b@.take(b@.len() as int) =~= b@);
        assert(v@ =~= rank_key(self.finding));
        v
    }
}

/// In patch order.
pub open spec fn patch_ordered(s: Seq<AgentFinding>) -> bool {
    forall|i: int, j: int|
        0 <= i < j < s.len() ==> !crate::sorting::key_lt(rank_key(#[trigger] s[j]), rank_key(#[trigger] s[i]))
}

/// The findings, each wrapped for patch order.
pub open spec fn ranked(s: Seq<AgentFinding>) -> Seq<Ranked> {
    s.map_values(|f: AgentFinding| Ranked { finding: f })
}

/// The same findings, by their views, as `fs`, those of equal patch rank in
/// the order they have in `fs`.
pub open spec fn same_findings(s: Seq<AgentFinding>, fs: Seq<AgentFinding>) -> bool {
    &&& s.map_values(|f: AgentFinding| fview(f)).to_multiset() == fs.map_values(
        |f: AgentFinding| fview(f),
    ).to_multiset()
    &&& keeps_ties_by(ranked(s), ranked(fs), |x: Ranked| fview(x.finding))
}

/// A copy of a finding.
fn copy_of(f: &AgentFinding) -> (r: AgentFinding)
    ensures
        fview(r) == fview(*f),
{
    let mut files: Vec<String> = Vec::new();
    let mut i: usize = 0;
    while i < f.target_files.len()
        invariant
            0 <= i <= f.target_files@.len(),
            files@ == f.target_files@.take(i as int),
        decreases f.target_files@.len() - i,
    {
        files.push(f.target_files[i].clone());
        assert(files@ =~= f.target_files@.take(i + 1));
        i = i + 1;
    }
    assert(files@ =~= f.target_files@);
    assert(views(files@) =~= views(f.target_files@));
    AgentFinding {
        rule_id: f.rule_id.clone(),
        rule_name: f.rule_name.clone(),
        severity: f.severity,
        category: f.category,
        priority: f.priority.clone(),
        message: f.message.clone(),
        evidence: match &f.evidence {
            Some(e) => Some(e.clone()),
            None => None,
        },
        recommendation: f.recommendation.clone(),
        suggested_fix_scope: f.suggested_fix_scope.clone(),
        target_files: files,
        patch_hint: f.patch_hint.clone(),
        why_it_fails_review: f.why_it_fails_review.clone(),
    }
}

/// The findings in patch order.
pub fn sort_by_priority(findings: &Vec<AgentFinding>) -> (r: Vec<AgentFinding>)
    ensures
        patch_ordered(r@),
        same_findings(r@, findings@),
{
    let mut wrapped: Vec<Ranked> = Vec::new();
    let mut i: usize = 0;
    while i < findings.len()
        invariant
            0 <= i <= findings@.len(),
            wrapped@.len() == i,
            forall|k: int| 0 <= k < i ==> fview(#[trigger] wrapped@[k].finding) == fview(findings@[k]),
        decreases findings@.len() - i,
    {
        wrapped.push(Ranked { finding: copy_of(&findings[i]) });
        i = i + 1;
    }
    let ghost w0 = wrapped@;
    assert(w0.map_values(|r: Ranked| fview(r.finding)) =~= findings@.map_values(
        |f: AgentFinding| fview(f),
    ));
    let sorted = sort_by_key(wrapped);
    proof {
        crate::sorting::lemma_map_multiset(sorted@, w0, |r: Ranked| fview(r.finding));
        let rf = ranked(findings@);
        assert forall|k: int| 0 <= k < w0.len() implies fview((#[trigger] w0[k]).finding) == fview(
            rf[k].finding,
        ) && w0[k].key() == rf[k].key() by {
            assert(rf[k].finding == findings@[k]);
            assert(fview(w0[k].finding) == fview(findings@[k]));
        }
        lemma_keeps_ties_pointwise(sorted@, w0, rf, |x: Ranked| fview(x.finding));
    }
    let mut out: Vec<AgentFinding> = Vec::new();
    let mut rest = sorted;
    let ghost s0 = rest@;
    let mut k: usize = 0;
    let total = rest.len();
    while rest.len() > 0
        invariant
            total == s0.len(),
            k + rest@.len() == s0.len(),
            rest@ == s0.skip(k as int),
            out@ == s0.take(k as int).map_values(|r: Ranked| r.finding),
        decreases rest@.len(),
    {
        let r = rest.remove(0);
        assert(r == s0[k as int]);
        out.push(r.finding);
        assert(out@ =~= s0.take(k + 1).map_values(|r: Ranked| r.finding));
        assert(rest@ =~= s0.skip(k + 1));
        k = k + 1;
    }
    assert(s0.take(s0.len() as int) =~= s0);
    assert(out@.map_values(|f: AgentFinding| fview(f)) =~= s0.map_values(|r: Ranked| fview(r.finding)));
    assert(ranked(out@) =~= s0);
    assert forall|a: int, b: int| 0 <= a < b < out@.len() implies !crate::sorting::key_lt(
        rank_key(#[trigger] out@[b]),
        rank_key(#[trigger] out@[a]),
    ) by {
        assert(out@[a] == s0[a].finding && out@[b] == s0[b].finding);
        assert(s0[a].key() == rank_key(s0[a].finding));
        assert(s0[b].key() == rank_key(s0[b].finding));
        assert(!crate::sorting::key_lt(s0[b].key(), s0[a].key()));
    }
    out
}

/// The target files line, when there are target files.
pub open spec fn targets_line(f: AgentFinding) -> Seq<char> {
    if f.target_files@.len() > 0 {
        "  - Target files: "@ + seq_join(views(f.target_files@), ", "@) + "\n"@
    } else {
        Seq::empty()
    }
}

fn push_targets_line(out: &mut String, f: &AgentFinding)
    ensures
        final(out)@ == old(out)@ + targets_line(*f),
{
    if f.target_files.len() > 0 {
        let joined = join(&f.target_files, ", ");
        push_str(out, "  - Target files: ");
        push_str(out, joined.as_str());
        push_str(out, "\n");
    }
}

/// `"- **{name}** (`{id}`)\n  - Priority: `{p}`\n{scope_label}{scope}`\n"`.
pub open spec fn finding_intro(f: AgentFinding, scope_label: Seq<char>) -> Seq<char> {
    "- **"@ + f.rule_name@ + "** (`"@ + f.rule_id@ + "`)\n"@ + "  - Priority: `"@ + f.priority@ + "`\n"@
        + scope_label + f.suggested_fix_scope@ + "`\n"@
}

fn push_finding_intro(out: &mut String, f: &AgentFinding, scope_label: &str)
    ensures
        final(out)@ == old(out)@ + finding_intro(*f, scope_label@),
{
    let ghost start = out@;
    push_str(out, "- **");
    push_str(out, f.rule_name.as_str());
    push_str(out, "** (`");
    push_str(out, f.rule_id.as_str());
    push_str(out, "`)\n");
    push_str(out, "  - Priority: `");
    push_str(out, f.priority.as_str());
    push_str(out, "`\n");
    push_str(out, scope_label);
    push_str(out, f.suggested_fix_scope.as_str());
    push_str(out, "`\n");
    assert(out@ =~= start + finding_intro(*f, scope_label@));
}

/// The kinds of finding blocks the agent documents use.
#[derive(Clone, Copy, PartialEq, Eq, Structural, Debug)]
pub enum BlockStyle {
    /// The fix prompt: scope, reasons, hint and recommendation.
    Prompt,
    /// The PR brief: scope, why review cares, and hint.
    Brief,
    /// The patch order of AGENTS.md: fix scope, reasons and hint.
    PatchOrder,
    /// The risk table of AGENTS.md.
    RiskRow,
}

pub open spec fn block_text(f: AgentFinding, style: BlockStyle) -> Seq<char> {
    match style {
        BlockStyle::Prompt => finding_intro(f, "  - Scope: `"@) + targets_line(f)
            + "  - Why it fails review: "@ + f.why_it_fails_review@ + "\n"@ + "  - Patch hint: "@
            + f.patch_hint@ + "\n"@ + "  - Recommendation: "@ + f.recommendation@ + "\n"@,
        BlockStyle::Brief => finding_intro(f, "  - Scope: `"@) + targets_line(f)
            + "  - Why review cares: "@ + f.why_it_fails_review@ + "\n"@ + "  - Patch hint: "@
            + f.patch_hint@ + "\n"@,
        BlockStyle::PatchOrder => finding_intro(f, "  - Fix scope: `"@) + targets_line(f)
            + "  - Why it fails review: "@ + f.why_it_fails_review@ + "\n"@ + "  - Patch hint: "@
            + f.patch_hint@ + "\n"@,
        BlockStyle::RiskRow => "| `"@ + f.priority@ + "` | `"@ + f.rule_id@ + "` | `"@
            + f.suggested_fix_scope@ + "` | "@ + f.why_it_fails_review@ + " |\n"@,
    }
}

fn push_block(out: &mut String, f: &AgentFinding, style: BlockStyle)
    ensures
        final(out)@ == old(out)@ + block_text(*f, style),
{
    let ghost start = out@;
    match style {
        BlockStyle::RiskRow => {
            push_str(out, "| `");
            push_str(out, f.priority.as_str());
            push_str(out, "` | `");
            push_str(out, f.rule_id.as_str());
            push_str(out, "` | `");
            push_str(out, f.suggested_fix_scope.as_str());
            push_str(out, "` | ");
            push_str(out, f.why_it_fails_review.as_str());
            push_str(out, " |\n");
        },
        _ => {
            let label = match style {
                BlockStyle::PatchOrder => "  - Fix scope: `",
                _ => "  - Scope: `",
            };
            push_finding_intro(out, f, label);
            push_targets_line(out, f);
            match style {
                BlockStyle::Brief => push_str(out, "  - Why review cares: "),
                _ => push_str(out, "  - Why it fails review: "),
            }
            push_str(out, f.why_it_fails_review.as_str());
            push_str(out, "\n");
            push_str(out, "  - Patch hint: ");
            push_str(out, f.patch_hint.as_str());
            push_str(out, "\n");
            if style == BlockStyle::Prompt {
                push_str(out, "  - Recommendation: ");
                push_str(out, f.recommendation.as_str());
                push_str(out, "\n");
            }
        },
    }
    assert(out@ =~= start + block_text(*f, style));
}

/// The blocks of findings in order.
pub open spec fn blocks_text(fs: Seq<AgentFinding>, style: BlockStyle) -> Seq<char>
    decreases fs.len(),
{
    if fs.len() == 0 {
        Seq::empty()
    } else {
        blocks_text(fs.drop_last(), style) + block_text(fs.last(), style)
    }
}

fn push_blocks(out: &mut String, fs: &Vec<AgentFinding>, style: BlockStyle)
    ensures
        final(out)@ == old(out)@ + blocks_text(fs@, style),
{
    let ghost start = out@;
    let mut i: usize = 0;
    assert(fs@.take(0) =~= Seq::<AgentFinding>::empty());
    while i < fs.len()
        invariant
            0 <= i <= fs@.len(),
            out@ == start + blocks_text(fs@.take(i as int), style),
        decreases fs@.len() - i,
    {
        assert(fs@.take(i + 1).drop_last() =~= fs@.take(i as int));
        push_block(out, &fs[i], style);
        assert(out@ =~= start + blocks_text(fs@.take(i + 1), style));
        i = i + 1;
    }
    assert(fs@.take(fs@.len() as int) =~= fs@);
}

/// The current-risks section of AGENTS.md, given the findings in patch order.
pub open spec fn risks_text(pack: AgentPack, dir: Seq<char>, ordered: Seq<AgentFinding>) -> Seq<char> {
    "### Current Project Risks\n\n"@ + "- Agent bundle: `"@ + dir + "/agent-pack.json` and `"@ + dir
        + "/agent-pack.md`\n\n"@ + if pack.findings@.len() == 0 {
        "- No new or regressed risks after applying the latest scan context. Re-run `voc` before release to keep this section fresh.\n\n"@
    } else {
        "| Priority | Rule ID | Scope | Why it matters |\n"@ + "| --- | --- | --- | --- |\n"@
            + blocks_text(ordered, BlockStyle::RiskRow) + "\n"@ + "#### Suggested Patch Order\n\n"@
            + blocks_text(ordered, BlockStyle::PatchOrder) + "\n"@
    }
}

/// Appends the current-risks section.
pub fn append_current_project_risks(out: &mut String, pack: &AgentPack, agent_pack_dir: &str)
    ensures
        exists|ordered: Seq<AgentFinding>|
            patch_ordered(ordered) && same_findings(ordered, pack.findings@) && final(out)@ == old(
                out,
            )@ + risks_text(*pack, agent_pack_dir@, ordered),
{
    let ghost start = out@;
    push_str(out, "### Current Project Risks\n\n");
    push_str(out, "- Agent bundle: `");
    push_str(out, agent_pack_dir);
    push_str(out, "/agent-pack.json` and `");
    push_str(out, agent_pack_dir);
    push_str(out, "/agent-pack.md`\n\n");
    if pack.findings.len() == 0 {
        push_str(
            out,
            "- No new or regressed risks after applying the latest scan context. Re-run `voc` before release to keep this section fresh.\n\n",
        );
        assert(out@ =~= start + risks_text(*pack, agent_pack_dir@, pack.findings@));
        assert(patch_ordered(pack.findings@));
        return;
    }
    let findings = sort_by_priority(&pack.findings);
    push_str(out, "| Priority | Rule ID | Scope | Why it matters |\n");
    push_str(out, "| --- | --- | --- | --- |\n");
    push_blocks(out, &findings, BlockStyle::RiskRow);
    push_str(out, "\n");
    push_str(out, "#### Suggested Patch Order\n\n");
    push_blocks(out, &findings, BlockStyle::PatchOrder);
    push_str(out, "\n");
    assert(out@ =~= start + risks_text(*pack, agent_pack_dir@, findings@));
}

/// The fix prompt's header lines.
pub open spec fn prompt_head(h: CommandHints) -> Seq<char> {
    "# verifyOS Fix Prompt\n\n"@
        + "Patch the current iOS bundle risks conservatively. Prefer minimal, review-safe edits.\n\n"@
        + opt_line("- App artifact: `"@, h.app_path, "`\n"@) + opt_line(
        "- Scan profile: `"@,
        h.profile,
        "`\n"@,
    ) + opt_line("- Agent bundle: `"@, h.agent_pack_dir, "`\n"@) + opt_line(
        "- Prompt file: `"@,
        h.fix_prompt_path,
        "`\n"@,
    ) + "\n"@
}

/// The fix prompt handed to a coding agent.
pub open spec fn fix_prompt_text(pack: AgentPack, h: CommandHints) -> Seq<char> {
    prompt_head(h) + (if pack.findings@.len() == 0 {
        "## Findings\n\n- No current findings. Re-run the validation commands to confirm the app is still clean.\n\n"@
    } else {
        "## Findings\n\n"@ + blocks_text(pack.findings@, BlockStyle::Prompt) + "\n"@
    }) + "## Done When\n\n"@
        + "- The relevant files are patched without widening permissions or exceptions.\n"@
        + "- `voc` no longer reports the patched findings.\n"@
        + "- Updated outputs are regenerated for the next loop.\n\n"@ + "## Validation Commands\n\n"@
        + validation_text(h, false)
}

fn push_prompt_head(out: &mut String, hints: &CommandHints)
    ensures
        final(out)@ == old(out)@ + prompt_head(*hints),
{
    let ghost start = out@;
    push_str(out, "# verifyOS Fix Prompt\n\n");
    push_str(
        out,
        "Patch the current iOS bundle risks conservatively. Prefer minimal, review-safe edits.\n\n",
    );
    push_opt_line(out, "- App artifact: `", &hints.app_path, "`\n");
    push_opt_line(out, "- Scan profile: `", &hints.profile, "`\n");
    push_opt_line(out, "- Agent bundle: `", &hints.agent_pack_dir, "`\n");
    push_opt_line(out, "- Prompt file: `", &hints.fix_prompt_path, "`\n");
    push_str(out, "\n");
    assert(out@ =~= start + prompt_head(*hints));
}

/// Renders the fix prompt for the pack's findings, in pack order.
pub fn render_fix_prompt(pack: &AgentPack, hints: &CommandHints) -> (r: String)
    ensures
        r@ == fix_prompt_text(*pack, *hints),
{
    let mut out = String::new();
    push_prompt_head(&mut out, hints);
    let ghost a = out@;
    if pack.findings.len() == 0 {
        push_str(
            &mut out,
            "## Findings\n\n- No current findings. Re-run the validation commands to confirm the app is still clean.\n\n",
        );
    } else {
        push_str(&mut out, "## Findings\n\n");
        push_blocks(&mut out, &pack.findings, BlockStyle::Prompt);
        push_str(&mut out, "\n");
    }
    let ghost b = out@;
    push_str(&mut out, "## Done When\n\n");
    push_str(
        &mut out,
        "- The relevant files are patched without widening permissions or exceptions.\n",
    );
    push_str(&mut out, "- `voc` no longer reports the patched findings.\n");
    push_str(&mut out, "- Updated outputs are regenerated for the next loop.\n\n");
    push_str(&mut out, "## Validation Commands\n\n");
    push_validation(&mut out, hints, false);
    assert(out@ =~= fix_prompt_text(*pack, *hints));
    out
}

/// The PR brief's summary lines.
pub open spec fn brief_head(pack: AgentPack, h: CommandHints) -> Seq<char> {
    "# verifyOS PR Brief\n\n"@ + "## Summary\n\n"@ + "- Findings in scope: `"@ + decimal(
        pack.total_findings as nat,
    ) + "`\n"@ + opt_line("- App artifact: `"@, h.app_path, "`\n"@) + opt_line(
        "- Scan profile: `"@,
        h.profile,
        "`\n"@,
    ) + opt_line("- Baseline: `"@, h.baseline_path, "`\n"@) + "\n"@
}

/// The PR brief, given the findings in patch order.
pub open spec fn pr_brief_text(pack: AgentPack, h: CommandHints, ordered: Seq<AgentFinding>) -> Seq<char> {
    brief_head(pack, h) + "## What Changed\n\n"@ + (if pack.findings@.len() == 0 {
        "- No new or regressed risks are currently in scope after the latest scan.\n\n"@
    } else {
        "- This branch still contains findings that can affect App Store review outcomes.\n"@
            + "- The recommended patch order below is sorted for review safety and repair efficiency.\n\n"@
    }) + "## Current Risks\n\n"@ + (if pack.findings@.len() == 0 {
        "- No open findings.\n\n"@
    } else {
        blocks_text(ordered, BlockStyle::Brief) + "\n"@
    }) + "## Validation Commands\n\n"@ + validation_text(h, true)
}

fn push_brief_head(out: &mut String, pack: &AgentPack, hints: &CommandHints)
    ensures
        final(out)@ == old(out)@ + brief_head(*pack, *hints),
{
    let ghost start = out@;
    push_str(out, "# verifyOS PR Brief\n\n");
    push_str(out, "## Summary\n\n");
    push_str(out, "- Findings in scope: `");
    push_decimal(out, pack.total_findings as u128);
    push_str(out, "`\n");
    push_opt_line(out, "- App artifact: `", &hints.app_path, "`\n");
    push_opt_line(out, "- Scan profile: `", &hints.profile, "`\n");
    push_opt_line(out, "- Baseline: `", &hints.baseline_path, "`\n");
    push_str(out, "\n");
    assert(out@ =~= start + brief_head(*pack, *hints));
}

/// Renders the PR brief: a summary, the risks in patch order, and the
/// commands that validate a fix.
pub fn render_pr_brief(pack: &AgentPack, hints: &CommandHints) -> (r: String)
    ensures
        exists|ordered: Seq<AgentFinding>|
            patch_ordered(ordered) && same_findings(ordered, pack.findings@) && r@ == pr_brief_text(
                *pack,
                *hints,
                ordered,
            ),
{
    let mut out = String::new();
    push_brief_head(&mut out, pack, hints);
    push_str(&mut out, "## What Changed\n\n");
    let ghost a = out@;
    if pack.findings.len() == 0 {
        push_str(
            &mut out,
            "- No new or regressed risks are currently in scope after the latest scan.\n\n",
        );
    } else {
        push_str(
            &mut out,
            "- This branch still contains findings that can affect App Store review outcomes.\n",
        );
        push_str(
            &mut out,
            "- The recommended patch order below is sorted for review safety and repair efficiency.\n\n",
        );
    }
    push_str(&mut out, "## Current Risks\n\n");
    let ghost b = out@;
    let findings = sort_by_priority(&pack.findings);
    if pack.findings.len() == 0 {
        push_str(&mut out, "- No open findings.\n\n");
    } else {
        push_blocks(&mut out, &findings, BlockStyle::Brief);
        push_str(&mut out, "\n");
    }
    push_str(&mut out, "## Validation Commands\n\n");
    push_validation(&mut out, hints, true);
    assert(out@ =~= pr_brief_text(*pack, *hints, findings@));
    out
}

/// The fixed guidance at the top of the managed section.
pub open spec fn block_intro(dir: Seq<char>) -> Seq<char> {
    MANAGED_START@ + "\n"@ + "## verifyOS-cli\n\n"@
        + "Use `voc` before large iOS submission changes or release builds.\n\n"@
        + "### Recommended Workflow\n\n"@
        + "1. Run `voc --app <path-to-.ipa-or-.app> --profile basic` for a quick gate.\n"@
        + "2. Run `voc --app <path-to-.ipa-or-.app> --profile full --agent-pack "@ + dir
        + " --agent-pack-format bundle` before release or when an AI agent will patch findings.\n"@
        + "3. Read `"@ + dir + "/agent-pack.md` first, then patch the highest-priority scopes.\n"@
        + "4. Re-run `voc` after each fix batch until the pack is clean.\n\n"@
}

/// The agent rules of the managed section.
pub open spec fn block_rules(dir: Seq<char>) -> Seq<char> {
    "### AI Agent Rules\n\n"@
        + "- Prefer `voc --profile basic` during fast inner loops and `voc --profile full` before shipping.\n"@
        + "- When findings exist, generate an agent bundle with `voc --agent-pack "@ + dir
        + " --agent-pack-format bundle`.\n"@ + "- Fix `high` priority findings before `medium` and `low`.\n"@
        + "- Treat `Info.plist`, `entitlements`, `ats-config`, and `bundle-resources` as the main fix scopes.\n"@
        + "- Re-run `voc` after edits and compare against the previous agent pack to confirm findings were actually removed.\n\n"@
}

/// The rows of the rule inventory table.
pub open spec fn inventory_rows(inv: Seq<RuleInventoryItem>) -> Seq<char>
    decreases inv.len(),
{
    if inv.len() == 0 {
        Seq::empty()
    } else {
        inventory_rows(inv.drop_last()) + inventory_row_text(inv.last())
    }
}

/// The rule inventory table and the closing marker.
pub open spec fn block_inventory(inv: Seq<RuleInventoryItem>) -> Seq<char> {
    "### Rule Inventory\n\n"@ + "| Rule ID | Name | Category | Severity | Default Profiles |\n"@
        + "| --- | --- | --- | --- | --- |\n"@ + inventory_rows(inv) + "\n"@ + MANAGED_END@ + "\n"@
}

/// An inventory as `rule_inventory` returns it.
pub open spec fn is_inventory(r: Seq<RuleInventoryItem>) -> bool {
    &&& sorted_by_key(r)
    &&& r.len() == inventory_entries().len()
    &&& forall|i: int| 0 <= i < r.len() ==> inventory_entries().contains(#[trigger] item_view(r[i]))
    &&& forall|j: int| 0 <= j < inventory_entries().len() ==> #[trigger] listed_in(r, inventory_entries()[j])
}

/// The managed section of AGENTS.md.
pub open spec fn managed_block_text(
    pack: Option<AgentPack>,
    dir: Option<Seq<char>>,
    hints: Option<CommandHints>,
    ordered: Seq<AgentFinding>,
    inv: Seq<RuleInventoryItem>,
) -> Seq<char> {
    let d = match dir {
        Some(x) => x,
        None => ".verifyos-agent"@,
    };
    block_intro(d) + block_rules(d) + (match hints {
        Some(h) => next_commands_text(h),
        None => Seq::empty(),
    }) + (match pack {
        Some(p) => risks_text(p, d, ordered),
        None => Seq::empty(),
    }) + block_inventory(inv)
}

fn push_intro(out: &mut String, d: &str)
    ensures
        final(out)@ == old(out)@ + block_intro(d@) + block_rules(d@),
{
    let ghost start = out@;
    push_str(out, MANAGED_START);
    push_str(out, "\n");
    push_str(out, "## verifyOS-cli\n\n");
    push_str(out, "Use `voc` before large iOS submission changes or release builds.\n\n");
    push_str(out, "### Recommended Workflow\n\n");
    push_str(out, "1. Run `voc --app <path-to-.ipa-or-.app> --profile basic` for a quick gate.\n");
    push_str(out, "2. Run `voc --app <path-to-.ipa-or-.app> --profile full --agent-pack ");
    push_str(out, d);
    push_str(
        out,
        " --agent-pack-format bundle` before release or when an AI agent will patch findings.\n",
    );
    push_str(out, "3. Read `");
    push_str(out, d);
    push_str(out, "/agent-pack.md` first, then patch the highest-priority scopes.\n");
    push_str(out, "4. Re-run `voc` after each fix batch until the pack is clean.\n\n");
    let ghost mid = out@;
    assert(mid =~= start + block_intro(d@));
    push_str(out, "### AI Agent Rules\n\n");
    push_str(
        out,
        "- Prefer `voc --profile basic` during fast inner loops and `voc --profile full` before shipping.\n",
    );
    push_str(out, "- When findings exist, generate an agent bundle with `voc --agent-pack ");
    push_str(out, d);
    push_str(out, " --agent-pack-format bundle`.\n");
    push_str(out, "- Fix `high` priority findings before `medium` and `low`.\n");
    push_str(
        out,
        "- Treat `Info.plist`, `entitlements`, `ats-config`, and `bundle-resources` as the main fix scopes.\n",
    );
    push_str(
        out,
        "- Re-run `voc` after edits and compare against the previous agent pack to confirm findings were actually removed.\n\n",
    );
    assert(out@ =~= mid + block_rules(d@));
}

fn push_inventory(out: &mut String, inv: &Vec<RuleInventoryItem>)
    ensures
        final(out)@ == old(out)@ + block_inventory(inv@),
{
    let ghost start = out@;
    push_str(out, "### Rule Inventory\n\n");
    push_str(out, "| Rule ID | Name | Category | Severity | Default Profiles |\n");
    push_str(out, "| --- | --- | --- | --- | --- |\n");
    let ghost rows = out@;
    let mut i: usize = 0;
    assert(inv@.take(0) =~= Seq::<RuleInventoryItem>::empty());
    while i < inv.len()
        invariant
            0 <= i <= inv@.len(),
            out@ == rows + inventory_rows(inv@.take(i as int)),
        decreases inv@.len() - i,
    {
        assert(inv@.take(i + 1).drop_last() =~= inv@.take(i as int));
        let row = inventory_row(&inv[i]);
        push_str(out, row.as_str());
        assert(out@ =~= rows + inventory_rows(inv@.take(i + 1)));
        i = i + 1;
    }
    assert(inv@.take(inv@.len() as int) =~= inv@);
    push_str(out, "\n");
    push_str(out, MANAGED_END);
    push_str(out, "\n");
    assert(out@ =~= start + block_inventory(inv@));
}

/// Builds the managed section of AGENTS.md: guidance, the next commands when
/// hints are given, the current risks when a pack is given, and the rule
/// inventory.
pub fn build_managed_block(
    agent_pack: Option<&AgentPack>,
    agent_pack_dir: Option<&str>,
    command_hints: Option<&CommandHints>,
) -> (r: String)
    ensures
        exists|ordered: Seq<AgentFinding>, inv: Seq<RuleInventoryItem>|
            #![trigger is_inventory(inv), patch_ordered(ordered)]
            is_inventory(inv) && (match agent_pack {
                Some(p) => patch_ordered(ordered) && same_findings(ordered, p.findings@),
                None => patch_ordered(ordered),
            }) && r@ == managed_block_text(
                match agent_pack {
                    Some(p) => Some(*p),
                    None => None,
                },
                match agent_pack_dir {
                    Some(d) => Some(d@),
                    None => None,
                },
                match command_hints {
                    Some(h) => Some(*h),
                    None => None,
                },
                ordered,
                inv,
            ),
{
    let inventory = rule_inventory();
    assert(is_inventory(inventory@));
    let d = match agent_pack_dir {
        Some(x) => x,
        None => ".verifyos-agent",
    };
    let mut out = String::new();
    push_intro(&mut out, d);
    let ghost a = out@;
    if let Some(hints) = command_hints {
        append_next_commands(&mut out, hints);
    }
    let ghost b = out@;
    let ghost mut ordered: Seq<AgentFinding> = Seq::empty();
    assert(patch_ordered(ordered));
    if let Some(pack) = agent_pack {
        let ghost before = out@;
        append_current_project_risks(&mut out, pack, d);
        proof {
            ordered = choose|o: Seq<AgentFinding>|
                patch_ordered(o) && same_findings(o, pack.findings@) && out@ == before + risks_text(
                    *pack,
                    d@,
                    o,
                );
        }
    }
    let ghost c = out@;
    push_inventory(&mut out, &inventory);
    assert(out@ =~= managed_block_text(
        match agent_pack {
            Some(p) => Some(*p),
            None => None,
        },
        match agent_pack_dir {
            Some(x) => Some(x@),
            None => None,
        },
        match command_hints {
            Some(h) => Some(*h),
            None => None,
        },
        ordered,
        inventory@,
    ));
    assert(patch_ordered(ordered));
    out
}

} // verus!
