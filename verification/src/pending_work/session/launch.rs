//! Builds provider-neutral agent launches and canonical multiplexer targets.
use vstd::prelude::*;

use crate::pending_work::dto::PendingWorkItemView;
use crate::pending_work::identifier::{
    is_work_item_id, lemma_four_digits_bound, parse, parse_id,
};
use crate::pending_work::project_registry::{id_prefix, id_prefix_of, opt_view};
use crate::pending_work::session::model::{
    Agent, AgentLaunch, DispatchTarget, LaunchDirectives, SessionEffort,
};
use crate::text::{
    ascii_lower, chars_of, concat, decimal, decimal_chars, digits_value, lower_all,
    parse_unsigned_chars, string_of, unsigned_digits,
};

verus! {

/// Autonomy directive inserted by `--auto`.
pub const AUTONOMY_DIRECTIVE: &'static str = "You MUST execute this autonomously. Do not prompt the user for questions. But if something seems critical and needs user decision, STOP execution and clarify";

/// The short form of a task identifier: the lowercased code and the number without
/// leading zeros (`pwf76`), or the identifier itself when it is not a work-item identifier.
pub open spec fn task_id_brief_of(task_id: Seq<char>) -> Seq<char> {
    match parse_id(task_id) {
        Some(id) => ascii_lower(id.take(id.len() - 5)) + decimal(digits_value(id.skip(id.len() - 4))),
        None => task_id,
    }
}

/// The title of an agent thread: the short identifier and the item's session name.
pub open spec fn thread_title_of(item: PendingWorkItemView) -> Seq<char> {
    task_id_brief_of(item.id@) + " :: "@ + item.session@
}

pub open spec fn worktree_instruction_of(id: Seq<char>) -> Seq<char> {
    "Workspace: before doing anything else, use a git-worktrees skill to create a git worktree here named `"@
        + id
        + "` (the worktree name is this "@
        + "task's id), and do all of this "@
        + "task's work inside that worktree."@
}

/// The prompt an agent is launched with: the autonomy directive when asked for, the task
/// content, and the worktree instruction after a blank line when asked for.
pub open spec fn launch_prompt_of(
    task_content: Seq<char>,
    task_id: Seq<char>,
    directives: LaunchDirectives,
) -> Seq<char> {
    let head = if directives.autonomous {
        AUTONOMY_DIRECTIVE@ + "\n\n"@
    } else {
        Seq::empty()
    };
    let body = head + task_content;
    if directives.worktree {
        let ended = if body.len() > 0 && body.last() == '\n' {
            body
        } else {
            body.push('\n')
        };
        ended.push('\n') + worktree_instruction_of(task_id)
    } else {
        body
    }
}

/// The multiplexer session and window of a task: the lowercased code and the canonical
/// identifier, or for any other identifier the lowercased text before its first `-` and the
/// identifier as written.
pub open spec fn dispatch_target_of(task_id: Seq<char>) -> (Seq<char>, Seq<char>) {
    match parse_id(task_id) {
        Some(id) => (ascii_lower(id_prefix(id)), id),
        None => (ascii_lower(id_prefix(task_id)), task_id),
    }
}

// ---------------------------------------------------------------------------------------
/// The short form of a task identifier.
pub fn task_id_brief(task_id: &str) -> (r: String)
    ensures
        r@ == task_id_brief_of(task_id@),
{
    let id = match parse(task_id) {
        Some(id) => id,
        None => return task_id.to_owned(),
    };
    let v = chars_of(id.as_str());
    let n = v.len();
    proof {
        assert(is_work_item_id(id@));
    }
    let code = crate::text::slice_chars(&v, 0, n - 5);
    let digits = crate::text::slice_chars(&v, n - 4, n);
    proof {
        assert(digits@ =~= id@.skip(n - 4));
        assert(code@ =~= id@.take(n - 5));
        lemma_four_digits_bound(digits@);
        assert(crate::text::is_ascii_digit(digits@[0]));
        assert(unsigned_digits(digits@) == digits@);
    }
    let number = match parse_unsigned_chars(&digits, 65535) {
        Some(number) => number,
        None => return task_id.to_owned(),
    };
    let lowered = lower_all(&code);
    let prefix = string_of(&lowered, 0, lowered.len());
    let number_chars = decimal_chars(number);
    let number_text = string_of(&number_chars, 0, number_chars.len());
    proof {
        assert(lowered@.subrange(0, lowered.len() as int) =~= lowered@);
        assert(number_chars@.subrange(0, number_chars.len() as int) =~= number_chars@);
    }
    concat(prefix.as_str(), number_text.as_str())
}

/// The title of the agent thread for an item.
pub fn thread_title(item: &PendingWorkItemView) -> (r: String)
    ensures
        r@ == thread_title_of(*item),
{
    let brief = task_id_brief(item.id.as_str());
    let head = concat(brief.as_str(), " :: ");
    concat(head.as_str(), item.session.as_str())
}

/// The instruction to work in a git worktree named after the task.
pub fn worktree_instruction(id: &str) -> (r: String)
    ensures
        r@ == worktree_instruction_of(id@),
{
    let a = concat(
        "Workspace: before doing anything else, use a git-worktrees skill to create a git worktree here named `",
        id,
    );
    let b = concat(a.as_str(), "` (the worktree name is this ");
    let c = concat(b.as_str(), "task's id), and do all of this ");
    concat(c.as_str(), "task's work inside that worktree.")
}

/// The prompt an agent is launched with; see [`launch_prompt_of`].
pub fn launch_prompt(task_content: &str, task_id: &str, directives: LaunchDirectives) -> (r: String)
    ensures
        r@ == launch_prompt_of(task_content@, task_id@, directives),
{
    let mut prompt = String::new();
    if directives.autonomous {
        prompt = concat(AUTONOMY_DIRECTIVE, "\n\n");
    }
    proof {
        reveal_strlit("\n\n");
    }
    let body = concat(prompt.as_str(), task_content);
    if !directives.worktree {
        return body;
    }
    let v = chars_of(body.as_str());
    let mut ended = body;
    if !(v.len() > 0 && v[v.len() - 1] == '\n') {
        ended.push('\n');
    }
    ended.push('\n');
    let instruction = worktree_instruction(task_id);
    concat(ended.as_str(), instruction.as_str())
}

/// The multiplexer target of a task; see [`dispatch_target_of`].
pub fn dispatch_target(task_id: &str) -> (r: DispatchTarget)
    ensures
        (r.session@, r.window@) == dispatch_target_of(task_id@),
{
    match parse(task_id) {
        Some(id) => {
            let prefix = id_prefix_of(id.as_str());
            let pv = chars_of(prefix.as_str());
            let lowered = lower_all(&pv);
            proof {
                assert(lowered@.subrange(0, lowered.len() as int) =~= lowered@);
            }
            DispatchTarget { session: string_of(&lowered, 0, lowered.len()), window: id }
        },
        None => legacy_dispatch_target(task_id),
    }
}

/// The multiplexer target of a task whose identifier is not a work-item identifier.
pub fn legacy_dispatch_target(task_id: &str) -> (r: DispatchTarget)
    ensures
        r.session@ == ascii_lower(id_prefix(task_id@)),
        r.window@ == task_id@,
{
    let prefix = id_prefix_of(task_id);
    let pv = chars_of(prefix.as_str());
    let lowered = lower_all(&pv);
    proof {
        assert(lowered@.subrange(0, lowered.len() as int) =~= lowered@);
    }
    DispatchTarget { session: string_of(&lowered, 0, lowered.len()), window: task_id.to_owned() }
}

impl AgentLaunch {
    /// The launch of an item: its identifier, thread title, repository (empty when none),
    /// launch prompt over `task_content`, model and effort.
    pub fn new(
        item: &PendingWorkItemView,
        task_content: &str,
        directives: LaunchDirectives,
        agent: Agent,
        model: Option<String>,
        effort: SessionEffort,
    ) -> (r: Self)
        ensures
            r.agent == agent,
            r.task_id@ == item.id@,
            r.title@ == thread_title_of(*item),
            r.repository@ == match item.repo {
                Some(repo) => repo@,
                None => Seq::empty(),
            },
            r.prompt@ == launch_prompt_of(task_content@, item.id@, directives),
            r.model == model,
            r.effort == effort,
    {
        AgentLaunch {
            agent,
            task_id: item.id.clone(),
            title: thread_title(item),
            repository: match &item.repo {
                Some(repo) => repo.clone(),
                None => String::new(),
            },
            prompt: launch_prompt(task_content, item.id.as_str(), directives),
            model,
            effort,
        }
    }
}

} // verus!
