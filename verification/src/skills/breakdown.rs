//! `/breakdown`: break a large or ambiguous task into concrete actions.
use vstd::prelude::*;
use crate::brain::client::{SubTask, TaskBreakdown};
use crate::skills::format::{summary, summary_spec, LineKind};
use crate::skills::traits::{Action, Event};
use crate::text::{decimal, join_spec, push_decimal};

verus! {

/// The breakdown skill.
#[derive(Clone, Debug)]
pub struct BreakdownSkill;

impl BreakdownSkill {
    /// The skill's name.
    pub fn name(&self) -> (r: &'static str)
        ensures
            r@ == "breakdown"@,
    {
        "breakdown"
    }

    /// What the skill does.
    pub fn description(&self) -> (r: &'static str)
        ensures
            r@ == "Break down a large/ambiguous task into concrete actions"@,
    {
        "Break down a large/ambiguous task into concrete actions"
    }
}

/// Where a breakdown run is.
#[derive(PartialEq, Eq, Structural, Clone, Copy, Debug)]
pub enum BreakdownStage {
    Start,
    Announcing,
    Recalling,
    BreakingDown,
    Presenting,
    Done,
}

/// A run of the breakdown skill on a task description.
#[derive(Clone, Debug)]
pub struct BreakdownRun {
    pub args: String,
    pub stage: BreakdownStage,
}

/// The sum of the actions' estimates, in minutes.
pub open spec fn total_estimate(actions: Seq<SubTask>) -> nat
    decreases actions.len(),
{
    if actions.len() == 0 {
        0
    } else {
        (total_estimate(actions.drop_last()) + actions.last().estimate_min) as nat
    }
}

/// The breakdown can be presented: its total fits a `u32` and no dependency
/// index is the largest `usize` (both would overflow).
pub open spec fn presentable(b: TaskBreakdown) -> bool {
    &&& total_estimate(b.actions@) <= u32::MAX
    &&& forall|i: int, j: int| 0 <= i < b.actions@.len() && 0 <= j < b.actions@[i].depends_on@.len()
        ==> #[trigger] b.actions@[i].depends_on@[j] < usize::MAX
}

/// The dependency references of an action: `#n` for each action it depends on (numbered from 1).
pub open spec fn dep_refs(deps: Seq<usize>) -> Seq<Seq<char>> {
    Seq::new(deps.len(), |j: int| "#"@ + decimal((deps[j] + 1) as nat))
}

/// The dependency note of an action.
pub open spec fn deps_text(deps: Seq<usize>) -> Seq<char> {
    if deps.len() == 0 {
        Seq::empty()
    } else {
        " (after "@ + join_spec(dep_refs(deps), ", "@) + ")"@
    }
}

/// The line that presents the action numbered `n` (from 1).
pub open spec fn action_line(n: nat, a: SubTask) -> Seq<char> {
    "  "@ + decimal(n) + ". "@ + a.title@ + " (~"@ + decimal(a.estimate_min as nat) + "min)"@
        + deps_text(a.depends_on@) + "\n"@
}

/// The lines that present the actions, numbered from 1.
pub open spec fn actions_text(actions: Seq<SubTask>) -> Seq<char>
    decreases actions.len(),
{
    if actions.len() == 0 {
        Seq::empty()
    } else {
        actions_text(actions.drop_last()) + action_line(actions.len() as nat, actions.last())
    }
}

/// The presentation of a breakdown.
pub open spec fn breakdown_output(b: TaskBreakdown) -> Seq<char> {
    "**Goal:** "@ + b.goal@ + "\n\n**Actions:**\n\n"@ + actions_text(b.actions@)
        + "\n**Total estimate:** ~"@ + decimal(total_estimate(b.actions@)) + "min"@
}

/// The usage message for a missing task description.
pub open spec fn usage_message() -> Seq<char> {
    "Usage: /breakdown <task description>"@
}

/// The message that announces the breakdown of a task.
pub open spec fn announce_message(task: Seq<char>) -> Seq<char> {
    "🔨 Breaking down: "@ + task
}

/// Appends the dependency note of an action.
fn push_deps(out: &mut String, deps: &Vec<usize>)
    requires
        forall|j: int| 0 <= j < deps@.len() ==> #[trigger] deps@[j] < usize::MAX,
    ensures
        final(out)@ == old(out)@ + deps_text(deps@),
{
    if deps.len() == 0 {
        return;
    }
    let mut refs: Vec<String> = Vec::new();
    let mut j: usize = 0;
    while j < deps.len()
        invariant
            j <= deps@.len(),
            forall|t: int| 0 <= t < deps@.len() ==> #[trigger] deps@[t] < usize::MAX,
            refs@.len() == j,
            forall|t: int| 0 <= t < j ==> #[trigger] refs@[t]@ == "#"@ + decimal((deps@[t] + 1) as nat),
        decreases deps.len() - j,
    {
        let mut r = "#".to_owned();
        push_decimal(&mut r, (deps[j] + 1) as u64);
        refs.push(r);
        j = j + 1;
    }
    assert(crate::text::views(refs@) =~= dep_refs(deps@));
    out.append(" (after ");
    out.append(crate::text::join(&refs, ", ").as_str());
    out.append(")");
}

/// The presentation of a breakdown.
pub fn present_breakdown(b: &TaskBreakdown) -> (r: String)
    requires
        presentable(*b),
    ensures
        r@ == breakdown_output(*b),
{
    let mut out = "**Goal:** ".to_owned();
    out.append(b.goal.as_str());
    out.append("\n\n**Actions:**\n\n");
    let ghost head = out@;
    let mut total: u32 = 0;
    let mut i: usize = 0;
    while i < b.actions.len()
        invariant
            presentable(*b),
            i <= b.actions@.len(),
            out@ == head + actions_text(b.actions@.take(i as int)),
            total == total_estimate(b.actions@.take(i as int)),
        decreases b.actions.len() - i,
    {
        let a = &b.actions[i];
        proof {
            assert(b.actions@.take(i + 1).drop_last() == b.actions@.take(i as int));
            lemma_total_prefix(b.actions@, i + 1);
        }
        out.append("  ");
        push_decimal(&mut out, (i + 1) as u64);
        out.append(". ");
        out.append(a.title.as_str());
        out.append(" (~");
        push_decimal(&mut out, a.estimate_min as u64);
        out.append("min)");
        proof {
            assert forall|j: int| 0 <= j < a.depends_on@.len() implies #[trigger] a.depends_on@[j] < usize::MAX by {
                assert(b.actions@[i as int].depends_on@[j] < usize::MAX);
            }
        }
        push_deps(&mut out, &a.depends_on);
        out.append("\n");
        total = total + a.estimate_min;
        i = i + 1;
    }
    assert(b.actions@.take(b.actions@.len() as int) == b.actions@);
    out.append("\n**Total estimate:** ~");
    push_decimal(&mut out, total as u64);
    out.append("min");
    out
}

/// Whether a breakdown can be presented (see `presentable`).
pub fn is_presentable(b: &TaskBreakdown) -> (r: bool)
    ensures
        r == presentable(*b),
{
    let mut total: u64 = 0;
    let mut i: usize = 0;
    while i < b.actions.len()
        invariant
            i <= b.actions@.len(),
            total == total_estimate(b.actions@.take(i as int)),
            total <= u32::MAX,
            forall|k: int, j: int| 0 <= k < i && 0 <= j < b.actions@[k].depends_on@.len()
                ==> #[trigger] b.actions@[k].depends_on@[j] < usize::MAX,
        decreases b.actions.len() - i,
    {
        assert(b.actions@.take(i + 1).drop_last() == b.actions@.take(i as int));
        total = total + b.actions[i].estimate_min as u64;
        if total > u32::MAX as u64 {
            proof {
                lemma_total_prefix(b.actions@, i + 1);
            }
            return false;
        }
        let deps = &b.actions[i].depends_on;
        let mut j: usize = 0;
        while j < deps.len()
            invariant
                i < b.actions@.len(),
                deps@ == b.actions@[i as int].depends_on@,
                j <= deps@.len(),
                forall|t: int| 0 <= t < j ==> #[trigger] deps@[t] < usize::MAX,
            decreases deps.len() - j,
        {
            if deps[j] == usize::MAX {
                assert(b.actions@[i as int].depends_on@[j as int] == usize::MAX);
                return false;
            }
            j = j + 1;
        }
        i = i + 1;
    }
    assert(b.actions@.take(b.actions@.len() as int) == b.actions@);
    true
}

proof fn lemma_total_prefix(actions: Seq<SubTask>, k: int)
    requires
        0 <= k <= actions.len(),
    ensures
        total_estimate(actions.take(k)) <= total_estimate(actions),
    decreases actions.len() - k,
{
    if k < actions.len() {
        lemma_total_prefix(actions.drop_last(), k);
        assert(actions.drop_last().take(k) == actions.take(k));
    } else {
        assert(actions.take(k) == actions);
    }
}

impl BreakdownRun {
    /// A run on the given task description.
    pub fn new(args: String) -> (r: BreakdownRun)
        ensures
            r.args == args,
            r.stage == BreakdownStage::Start,
    {
        BreakdownRun { args, stage: BreakdownStage::Start }
    }

    /// The next action after an event: an empty task gets the usage message;
    /// otherwise the task is announced, context is recalled, the model breaks
    /// the task down with the first ten recalled nodes, and the breakdown is shown.
    pub fn step(&mut self, event: Event) -> (a: Action)
        requires
            event matches Event::BrokenDown(b) ==> presentable(b),
        ensures
            final(self).args == old(self).args,
            ({
                let task = old(self).args@;
                match (old(self).stage, event) {
                    (BreakdownStage::Start, Event::Begin) => if task.len() == 0 {
                        final(self).stage == BreakdownStage::Presenting && (a matches Action::Send(m) && m@ == usage_message())
                    } else {
                        final(self).stage == BreakdownStage::Announcing && (a matches Action::Send(m) && m@ == announce_message(task))
                    },
                    (BreakdownStage::Announcing, Event::Sent) =>
                        final(self).stage == BreakdownStage::Recalling && (a matches Action::Recall(q) && q@ == task),
                    (BreakdownStage::Recalling, Event::Recalled(nodes)) =>
                        final(self).stage == BreakdownStage::BreakingDown
                        && (a matches Action::BreakdownTask { task: t, context: c } && t@ == task
                            && c@ == summary_spec(nodes@, 10, LineKind::Detailed)),
                    (BreakdownStage::BreakingDown, Event::BrokenDown(b)) =>
                        final(self).stage == BreakdownStage::Presenting && (a matches Action::Send(m) && m@ == breakdown_output(b)),
                    _ => final(self).stage == BreakdownStage::Done && a is Finish,
                }
            }),
    {
        match (self.stage, event) {
            (BreakdownStage::Start, Event::Begin) => {
                if self.args.as_str().is_empty() {
                    self.stage = BreakdownStage::Presenting;
                    Action::Send("Usage: /breakdown <task description>".to_owned())
                } else {
                    self.stage = BreakdownStage::Announcing;
                    let mut m = "🔨 Breaking down: ".to_owned();
                    m.append(self.args.as_str());
                    Action::Send(m)
                }
            },
            (BreakdownStage::Announcing, Event::Sent) => {
                self.stage = BreakdownStage::Recalling;
                Action::Recall(self.args.clone())
            },
            (BreakdownStage::Recalling, Event::Recalled(nodes)) => {
                self.stage = BreakdownStage::BreakingDown;
                Action::BreakdownTask { task: self.args.clone(), context: summary(&nodes, 10, LineKind::Detailed) }
            },
            (BreakdownStage::BreakingDown, Event::BrokenDown(b)) => {
                self.stage = BreakdownStage::Presenting;
                Action::Send(present_breakdown(&b))
            },
            _ => {
                self.stage = BreakdownStage::Done;
                Action::Finish
            },
        }
    }
}

} // verus!
