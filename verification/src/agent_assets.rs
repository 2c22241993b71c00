//! Where the generated agent assets live, which of them a repair touches, and
//! the plan that lists them.
use vstd::prelude::*;
use crate::text::{chars_of, owned, path_join, path_join_spec, slice_string};

verus! {

pub const AGENTS_FILE_NAME: &'static str = "AGENTS.md";

pub const AGENT_BUNDLE_DIR_NAME: &'static str = ".verifyos-agent";

pub const AGENT_PACK_JSON_NAME: &'static str = "agent-pack.json";

pub const AGENT_PACK_MARKDOWN_NAME: &'static str = "agent-pack.md";

pub const NEXT_STEPS_SCRIPT_NAME: &'static str = "next-steps.sh";

pub const FIX_PROMPT_NAME: &'static str = "fix-prompt.md";

pub const PR_BRIEF_NAME: &'static str = "pr-brief.md";

pub const PR_COMMENT_NAME: &'static str = "pr-comment.md";

/// An asset that a repair can be limited to.
#[derive(Clone, Copy, Debug, PartialEq, Eq, Structural, Hash)]
pub enum RepairTarget {
    Agents,
    AgentBundle,
    FixPrompt,
    PrBrief,
    PrComment,
}

impl RepairTarget {
    pub open spec fn key_spec(self) -> Seq<char> {
        match self {
            RepairTarget::Agents => "agents"@,
            RepairTarget::AgentBundle => "agent-bundle"@,
            RepairTarget::FixPrompt => "fix-prompt"@,
            RepairTarget::PrBrief => "pr-brief"@,
            RepairTarget::PrComment => "pr-comment"@,
        }
    }

    /// The target's name on the command line and in plans.
    pub fn key(self) -> (r: &'static str)
        ensures
            r@ == self.key_spec(),
    {
        proof {
            reveal_strlit("agents");
            reveal_strlit("agent-bundle");
            reveal_strlit("fix-prompt");
            reveal_strlit("pr-brief");
            reveal_strlit("pr-comment");
        }
        match self {
            RepairTarget::Agents => "agents",
            RepairTarget::AgentBundle => "agent-bundle",
            RepairTarget::FixPrompt => "fix-prompt",
            RepairTarget::PrBrief => "pr-brief",
            RepairTarget::PrComment => "pr-comment",
        }
    }
}

/// One line of a repair plan.
#[derive(Clone, Debug)]
pub struct RepairPlanItem {
    pub target: String,
    pub path: String,
    pub reason: String,
}

/// The paths of the agent assets under one output directory.
#[derive(Clone, Debug)]
pub struct AgentAssetLayout {
    pub output_dir: String,
    pub agents_path: String,
    pub agent_bundle_dir: String,
    pub agent_pack_json_path: String,
    pub agent_pack_markdown_path: String,
    pub next_steps_script_path: String,
    pub fix_prompt_path: String,
    pub pr_brief_path: String,
    pub pr_comment_path: String,
}

/// The layout under `output_dir` with the given AGENTS.md path.
pub open spec fn layout_spec(output_dir: Seq<char>, agents_path: Seq<char>) -> (
    Seq<char>,
    Seq<char>,
    Seq<char>,
    Seq<char>,
    Seq<char>,
    Seq<char>,
    Seq<char>,
    Seq<char>,
    Seq<char>,
) {
    let bundle = path_join_spec(output_dir, AGENT_BUNDLE_DIR_NAME@);
    (
        output_dir,
        agents_path,
        bundle,
        path_join_spec(bundle, AGENT_PACK_JSON_NAME@),
        path_join_spec(bundle, AGENT_PACK_MARKDOWN_NAME@),
        path_join_spec(bundle, NEXT_STEPS_SCRIPT_NAME@),
        path_join_spec(output_dir, FIX_PROMPT_NAME@),
        path_join_spec(output_dir, PR_BRIEF_NAME@),
        path_join_spec(output_dir, PR_COMMENT_NAME@),
    )
}

impl AgentAssetLayout {
    pub open spec fn paths(&self) -> (
        Seq<char>,
        Seq<char>,
        Seq<char>,
        Seq<char>,
        Seq<char>,
        Seq<char>,
        Seq<char>,
        Seq<char>,
        Seq<char>,
    ) {
        (
            self.output_dir@,
            self.agents_path@,
            self.agent_bundle_dir@,
            self.agent_pack_json_path@,
            self.agent_pack_markdown_path@,
            self.next_steps_script_path@,
            self.fix_prompt_path@,
            self.pr_brief_path@,
            self.pr_comment_path@,
        )
    }

    /// The layout under `output_dir`, with AGENTS.md at `agents_path`.
    pub fn new(output_dir: &str, agents_path: &str) -> (r: Self)
        ensures
            r.paths() == layout_spec(output_dir@, agents_path@),
    {
        let bundle = path_join(output_dir, AGENT_BUNDLE_DIR_NAME);
        AgentAssetLayout {
            output_dir: owned(output_dir),
            agents_path: owned(agents_path),
            agent_pack_json_path: path_join(bundle.as_str(), AGENT_PACK_JSON_NAME),
            agent_pack_markdown_path: path_join(bundle.as_str(), AGENT_PACK_MARKDOWN_NAME),
            next_steps_script_path: path_join(bundle.as_str(), NEXT_STEPS_SCRIPT_NAME),
            fix_prompt_path: path_join(output_dir, FIX_PROMPT_NAME),
            pr_brief_path: path_join(output_dir, PR_BRIEF_NAME),
            pr_comment_path: path_join(output_dir, PR_COMMENT_NAME),
            agent_bundle_dir: bundle,
        }
    }

    /// The layout under `output_dir`, with AGENTS.md inside it.
    pub fn from_output_dir(output_dir: &str) -> (r: Self)
        ensures
            r.paths() == layout_spec(output_dir@, path_join_spec(output_dir@, AGENTS_FILE_NAME@)),
    {
        let agents = path_join(output_dir, AGENTS_FILE_NAME);
        Self::new(output_dir, agents.as_str())
    }

    /// The same output directory with AGENTS.md elsewhere.
    pub fn with_agents_path(&self, agents_path: &str) -> (r: Self)
        ensures
            r.paths() == layout_spec(self.output_dir@, agents_path@),
    {
        Self::new(self.output_dir.as_str(), agents_path)
    }
}

/// Which assets a repair rewrites: all of them when no target is named.
#[derive(Clone, Debug)]
pub struct RepairPolicy {
    repair_all: bool,
    repair_targets: Vec<RepairTarget>,
    pub open_pr_brief: bool,
    pub open_pr_comment: bool,
}

impl RepairPolicy {
    /// The targets the policy was made with.
    pub closed spec fn targets(&self) -> Seq<RepairTarget> {
        self.repair_targets@
    }

    pub closed spec fn brief_flag(&self) -> bool {
        self.open_pr_brief
    }

    pub closed spec fn comment_flag(&self) -> bool {
        self.open_pr_comment
    }

    pub closed spec fn wf(&self) -> bool {
        self.repair_all == (self.repair_targets@.len() == 0)
    }

    pub open spec fn names(&self, t: RepairTarget) -> bool {
        self.targets().contains(t)
    }

    pub open spec fn repairs_all_spec(&self) -> bool {
        self.targets().len() == 0
    }

    pub fn new(repair_targets: Vec<RepairTarget>, open_pr_brief: bool, open_pr_comment: bool) -> (r: Self)
        ensures
            r.wf(),
            r.targets() == repair_targets@,
            r.brief_flag() == open_pr_brief,
            r.comment_flag() == open_pr_comment,
    {
        let repair_all = repair_targets.len() == 0;
        RepairPolicy { repair_all, repair_targets, open_pr_brief, open_pr_comment }
    }

    /// Whether the PR brief was asked for.
    pub fn opens_pr_brief(&self) -> (r: bool)
        ensures
            r == self.brief_flag(),
    {
        self.open_pr_brief
    }

    /// Whether the PR comment was asked for.
    pub fn opens_pr_comment(&self) -> (r: bool)
        ensures
            r == self.comment_flag(),
    {
        self.open_pr_comment
    }

    pub fn repair_targets(&self) -> (r: &Vec<RepairTarget>)
        ensures
            r@ == self.targets(),
    {
        &self.repair_targets
    }

    pub fn repairs_all(&self) -> (r: bool)
        requires
            self.wf(),
        ensures
            r == self.repairs_all_spec(),
    {
        self.repair_all
    }

    fn names_target(&self, t: RepairTarget) -> (r: bool)
        ensures
            r == self.names(t),
    {
        let mut i: usize = 0;
        while i < self.repair_targets.len()
            invariant
                0 <= i <= self.repair_targets@.len(),
                forall|k: int| 0 <= k < i ==> self.repair_targets@[k] != t,
            decreases self.repair_targets@.len() - i,
        {
            if self.repair_targets[i] == t {
                return true;
            }
            i = i + 1;
        }
        false
    }

    pub fn should_repair_agents(&self) -> (r: bool)
        requires
            self.wf(),
        ensures
            r == (self.repairs_all_spec() || self.names(RepairTarget::Agents)),
    {
        self.repair_all || self.names_target(RepairTarget::Agents)
    }

    pub fn should_repair_bundle(&self) -> (r: bool)
        requires
            self.wf(),
        ensures
            r == (self.repairs_all_spec() || self.names(RepairTarget::AgentBundle)),
    {
        self.repair_all || self.names_target(RepairTarget::AgentBundle)
    }

    pub fn should_repair_fix_prompt(&self) -> (r: bool)
        requires
            self.wf(),
        ensures
            r == (self.repairs_all_spec() || self.names(RepairTarget::FixPrompt)),
    {
        self.repair_all || self.names_target(RepairTarget::FixPrompt)
    }

    pub fn should_include_pr_brief(&self) -> (r: bool)
        ensures
            r == (self.brief_flag() || self.names(RepairTarget::PrBrief)),
    {
        self.open_pr_brief || self.names_target(RepairTarget::PrBrief)
    }

    pub fn should_include_pr_comment(&self) -> (r: bool)
        ensures
            r == (self.comment_flag() || self.names(RepairTarget::PrComment)),
    {
        self.open_pr_comment || self.names_target(RepairTarget::PrComment)
    }

    pub fn should_repair_pr_brief(&self) -> (r: bool)
        requires
            self.wf(),
        ensures
            r == (self.repairs_all_spec() || self.names(RepairTarget::PrBrief)),
    {
        self.repair_all || self.names_target(RepairTarget::PrBrief)
    }

    pub fn should_repair_pr_comment(&self) -> (r: bool)
        requires
            self.wf(),
        ensures
            r == (self.repairs_all_spec() || self.names(RepairTarget::PrComment)),
    {
        self.repair_all || self.names_target(RepairTarget::PrComment)
    }
}

pub open spec fn plan_entry(target: RepairTarget, path: Seq<char>, reason: Seq<char>) -> (
    Seq<char>,
    Seq<char>,
    Seq<char>,
) {
    (target.key_spec(), path, reason)
}

pub open spec fn plan_part(on: bool, target: RepairTarget, path: Seq<char>, reason: Seq<char>) -> Seq<
    (Seq<char>, Seq<char>, Seq<char>),
> {
    if on {
        seq![plan_entry(target, path, reason)]
    } else {
        Seq::empty()
    }
}

/// The plan: one entry per asset the policy touches, in a fixed order.
pub open spec fn repair_plan_spec(layout: AgentAssetLayout, policy: RepairPolicy) -> Seq<
    (Seq<char>, Seq<char>, Seq<char>),
> {
    let all = policy.repairs_all_spec();
    plan_part(
        all || policy.names(RepairTarget::Agents),
        RepairTarget::Agents,
        layout.agents_path@,
        "refresh managed AGENTS.md block"@,
    ) + plan_part(
        all || policy.names(RepairTarget::AgentBundle),
        RepairTarget::AgentBundle,
        layout.agent_bundle_dir@,
        "rebuild agent-pack files and next-steps.sh"@,
    ) + plan_part(
        all || policy.names(RepairTarget::FixPrompt),
        RepairTarget::FixPrompt,
        layout.fix_prompt_path@,
        "refresh AI fix prompt"@,
    ) + plan_part(
        policy.brief_flag() || policy.names(RepairTarget::PrBrief),
        RepairTarget::PrBrief,
        layout.pr_brief_path@,
        "refresh PR handoff brief"@,
    ) + plan_part(
        policy.comment_flag() || policy.names(RepairTarget::PrComment),
        RepairTarget::PrComment,
        layout.pr_comment_path@,
        "refresh sticky PR comment draft"@,
    )
}

pub open spec fn plan_view(plan: Seq<RepairPlanItem>) -> Seq<(Seq<char>, Seq<char>, Seq<char>)> {
    plan.map_values(|i: RepairPlanItem| (i.target@, i.path@, i.reason@))
}

fn push_plan_item(plan: &mut Vec<RepairPlanItem>, target: RepairTarget, path: &str, reason: &str)
    ensures
        plan_view(final(plan)@) == plan_view(old(plan)@).push(plan_entry(target, path@, reason@)),
{
    let ghost pre = plan_view(plan@);
    plan.push(RepairPlanItem { target: owned(target.key()), path: owned(path), reason: owned(reason) });
    assert(plan_view(plan@) =~= pre.push(plan_entry(target, path@, reason@)));
}

/// The repair plan for a layout under a policy.
pub fn build_repair_plan(layout: &AgentAssetLayout, policy: &RepairPolicy) -> (r: Vec<RepairPlanItem>)
    requires
        policy.wf(),
    ensures
        plan_view(r@) == repair_plan_spec(*layout, *policy),
{
    let mut plan: Vec<RepairPlanItem> = Vec::new();
    let ghost all = policy.repairs_all_spec();
    let ghost e = Seq::<(Seq<char>, Seq<char>, Seq<char>)>::empty();
    assert(plan_view(plan@) =~= e);
    let ghost p1 = plan_part(
        all || policy.names(RepairTarget::Agents),
        RepairTarget::Agents,
        layout.agents_path@,
        "refresh managed AGENTS.md block"@,
    );
    if policy.should_repair_agents() {
        push_plan_item(&mut plan, RepairTarget::Agents, layout.agents_path.as_str(), "refresh managed AGENTS.md block");
    }
    assert(plan_view(plan@) =~= p1);
    let ghost p2 = plan_part(
        all || policy.names(RepairTarget::AgentBundle),
        RepairTarget::AgentBundle,
        layout.agent_bundle_dir@,
        "rebuild agent-pack files and next-steps.sh"@,
    );
    if policy.should_repair_bundle() {
        push_plan_item(
            &mut plan,
            RepairTarget::AgentBundle,
            layout.agent_bundle_dir.as_str(),
            "rebuild agent-pack files and next-steps.sh",
        );
    }
    assert(plan_view(plan@) =~= p1 + p2);
    let ghost p3 = plan_part(
        all || policy.names(RepairTarget::FixPrompt),
        RepairTarget::FixPrompt,
        layout.fix_prompt_path@,
        "refresh AI fix prompt"@,
    );
    if policy.should_repair_fix_prompt() {
        push_plan_item(&mut plan, RepairTarget::FixPrompt, layout.fix_prompt_path.as_str(), "refresh AI fix prompt");
    }
    assert(plan_view(plan@) =~= p1 + p2 + p3);
    let ghost p4 = plan_part(
        policy.brief_flag() || policy.names(RepairTarget::PrBrief),
        RepairTarget::PrBrief,
        layout.pr_brief_path@,
        "refresh PR handoff brief"@,
    );
    if policy.should_include_pr_brief() {
        push_plan_item(&mut plan, RepairTarget::PrBrief, layout.pr_brief_path.as_str(), "refresh PR handoff brief");
    }
    assert(plan_view(plan@) =~= p1 + p2 + p3 + p4);
    let ghost p5 = plan_part(
        policy.comment_flag() || policy.names(RepairTarget::PrComment),
        RepairTarget::PrComment,
        layout.pr_comment_path@,
        "refresh sticky PR comment draft"@,
    );
    if policy.should_include_pr_comment() {
        push_plan_item(
            &mut plan,
            RepairTarget::PrComment,
            layout.pr_comment_path.as_str(),
            "refresh sticky PR comment draft",
        );
    }
    assert(plan_view(plan@) =~= p1 + p2 + p3 + p4 + p5);
    plan
}

/// The position of the last `/` of a path, if it has one.
pub open spec fn last_slash(p: Seq<char>) -> Option<int>
    decreases p.len(),
{
    if p.len() == 0 {
        None
    } else if p.last() == '/' {
        Some(p.len() - 1)
    } else {
        last_slash(p.drop_last())
    }
}

/// `Path::parent` on a textual path: what comes before the last `/` (the root
/// when that is the first character); the empty path for a bare name; none for
/// the empty path and the root.
pub open spec fn parent_spec(p: Seq<char>) -> Option<Seq<char>> {
    if p.len() == 0 || p == seq!['/'] {
        None
    } else {
        match last_slash(p) {
            None => Some(Seq::empty()),
            Some(k) => if k == 0 {
                Some(seq!['/'])
            } else {
                Some(p.take(k))
            },
        }
    }
}

/// `Path::strip_prefix` on textual paths: the rest of `p` when `base` is the
/// empty path, `p` itself, or a leading run of whole components of `p`.
pub open spec fn strip_prefix_spec(p: Seq<char>, base: Seq<char>) -> Option<Seq<char>> {
    if base.len() == 0 {
        Some(p)
    } else if p == base {
        Some(Seq::empty())
    } else if base.len() < p.len() && p.take(base.len() as int) == base && base.last() == '/' {
        Some(p.skip(base.len() as int))
    } else if base.len() < p.len() && p.take(base.len() as int) == base && p[base.len() as int]
        == '/' {
        Some(p.skip(base.len() as int + 1))
    } else {
        None
    }
}

/// An asset's path as seen from the directory that holds AGENTS.md, or the
/// asset's own path when it lies elsewhere.
pub open spec fn relative_spec(agents_path: Seq<char>, asset_path: Seq<char>) -> Seq<char> {
    match parent_spec(agents_path) {
        Some(parent) => match strip_prefix_spec(asset_path, parent) {
            Some(rest) => rest,
            None => asset_path,
        },
        None => asset_path,
    }
}

pub fn last_slash_exec(v: &Vec<char>) -> (r: Option<usize>)
    ensures
        match r {
            Some(k) => last_slash(v@) == Some(k as int) && k < v@.len(),
            None => last_slash(v@) is None,
        },
{
    let mut i: usize = v.len();
    assert(v@.take(v@.len() as int) =~= v@);
    while i > 0
        invariant
            0 <= i <= v@.len(),
            last_slash(v@) == last_slash(v@.take(i as int)),
        decreases i,
    {
        assert(v@.take(i as int).drop_last() =~= v@.take(i - 1));
        if v[i - 1] == '/' {
            return Some(i - 1);
        }
        i = i - 1;
    }
    assert(v@.take(0) =~= Seq::<char>::empty());
    None
}

pub fn parent_of(p: &str) -> (r: Option<String>)
    ensures
        match r {
            Some(s) => parent_spec(p@) == Some(s@),
            None => parent_spec(p@) is None,
        },
{
    let v = chars_of(p);
    if v.len() == 0 || (v.len() == 1 && v[0] == '/') {
        assert(v.len() == 1 ==> v@ =~= seq!['/']);
        return None;
    }
    assert(v@ != seq!['/']);
    match last_slash_exec(&v) {
        None => Some(String::new()),
        Some(k) => {
            if k == 0 {
                let mut s = String::new();
                crate::text::push_char(&mut s, '/');
                assert(s@ =~= seq!['/']);
                Some(s)
            } else {
                let s = slice_string(&v, 0, k);
                assert(s@ =~= v@.take(k as int));
                Some(s)
            }
        },
    }
}

fn strip_prefix_of(p: &str, base: &str) -> (r: Option<String>)
    ensures
        match r {
            Some(s) => strip_prefix_spec(p@, base@) == Some(s@),
            None => strip_prefix_spec(p@, base@) is None,
        },
{
    let pv = chars_of(p);
    let bv = chars_of(base);
    if bv.len() == 0 {
        return Some(owned(p));
    }
    if pv.len() < bv.len() {
        assert(p@ != base@);
        return None;
    }
    let mut i: usize = 0;
    while i < bv.len()
        invariant
            0 <= i <= bv@.len(),
            bv@.len() <= pv@.len(),
            pv@ == p@,
            bv@ == base@,
            forall|k: int| 0 <= k < i ==> pv@[k] == bv@[k],
        decreases bv@.len() - i,
    {
        if pv[i] != bv[i] {
            assert(p@.take(base@.len() as int)[i as int] != base@[i as int]);
            assert(p@ != base@);
            return None;
        }
        i = i + 1;
    }
    assert(p@.take(base@.len() as int) =~= base@);
    if pv.len() == bv.len() {
        assert(p@ =~= base@);
        return Some(String::new());
    }
    if bv[bv.len() - 1] == '/' {
        let s = slice_string(&pv, bv.len(), pv.len());
        assert(s@ =~= p@.skip(base@.len() as int));
        return Some(s);
    }
    if pv[bv.len()] == '/' {
        let s = slice_string(&pv, bv.len() + 1, pv.len());
        assert(s@ =~= p@.skip(base@.len() as int + 1));
        return Some(s);
    }
    None
}

/// How AGENTS.md refers to an asset: relative to its own directory where the
/// asset lies below it.
pub fn relative_to_agents(agents_path: &str, asset_path: &str) -> (r: String)
    ensures
        r@ == relative_spec(agents_path@, asset_path@),
{
    match parent_of(agents_path) {
        Some(parent) => match strip_prefix_of(asset_path, parent.as_str()) {
            Some(rest) => rest,
            None => owned(asset_path),
        },
        None => owned(asset_path),
    }
}

/// The name of the manifest that lists a handoff's assets.
pub const HANDOFF_MANIFEST_NAME: &'static str = "handoff.json";

/// The name of a handoff's repair plan.
pub const REPAIR_PLAN_NAME: &'static str = "repair-plan.md";

/// Where the repair plan of a layout is written.
pub fn repair_plan_path(layout: &AgentAssetLayout) -> (r: String)
    ensures
        r@ == path_join_spec(layout.output_dir@, REPAIR_PLAN_NAME@),
{
    path_join(layout.output_dir.as_str(), REPAIR_PLAN_NAME)
}

/// What a handoff holds, as its manifest lists it.
pub struct HandoffManifest {
    pub app_path: String,
    pub baseline_path: Option<String>,
    pub profile: String,
    pub output_dir: String,
    pub assets: Vec<String>,
}

/// The assets of a handoff, in the order the manifest lists them.
pub open spec fn handoff_assets_spec(layout: AgentAssetLayout) -> Seq<Seq<char>> {
    seq![
        layout.agents_path@,
        layout.fix_prompt_path@,
        path_join_spec(layout.output_dir@, REPAIR_PLAN_NAME@),
        layout.pr_brief_path@,
        layout.pr_comment_path@,
        layout.agent_pack_json_path@,
        layout.agent_pack_markdown_path@,
        layout.next_steps_script_path@,
    ]
}

/// The manifest of a handoff refreshed from a scan of `app_path`.
pub fn handoff_manifest(layout: &AgentAssetLayout, app_path: &str, baseline_path: Option<&str>, profile: &str) -> (r:
    HandoffManifest)
    ensures
        r.app_path@ == app_path@,
        match (r.baseline_path, baseline_path) {
            (Some(a), Some(b)) => a@ == b@,
            (None, None) => true,
            _ => false,
        },
        r.profile@ == profile@,
        r.output_dir@ == layout.output_dir@,
        crate::text::views(r.assets@) == handoff_assets_spec(*layout),
{
    let mut assets: Vec<String> = Vec::new();
    assets.push(owned(layout.agents_path.as_str()));
    assets.push(owned(layout.fix_prompt_path.as_str()));
    assets.push(repair_plan_path(layout));
    assets.push(owned(layout.pr_brief_path.as_str()));
    assets.push(owned(layout.pr_comment_path.as_str()));
    assets.push(owned(layout.agent_pack_json_path.as_str()));
    assets.push(owned(layout.agent_pack_markdown_path.as_str()));
    assets.push(owned(layout.next_steps_script_path.as_str()));
    assert(crate::text::views(assets@) =~= handoff_assets_spec(*layout));
    HandoffManifest {
        app_path: owned(app_path),
        baseline_path: match baseline_path {
            Some(b) => Some(owned(b)),
            None => None,
        },
        profile: owned(profile),
        output_dir: owned(layout.output_dir.as_str()),
        assets,
    }
}

} // verus!
