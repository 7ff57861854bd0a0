//! Derives pending-work launchability diagnostics for list, verify, and session operations.
use vstd::prelude::*;

use crate::pending_work::dto::PendingWorkItemView;
use crate::pending_work::project_registry::opt_view;
use crate::pending_work::section::{alias, lemma_section_alias_stable, section_alias};
use crate::ports::{Materialization, PendingWorkItem, RecordId, WorkItemStatus};
use crate::text::{
    lemma_trim_idempotent,
    chars_of, concat, decimal, decimal_chars, eq_ignore_case, str_eq_ignore_case, string_of,
    string_views, trim, trimmed,
};

verus! {

/// The issue of an item whose project has no repository.
pub const ISSUE_NO_REPO: &'static str = "Project has no directory source; update the managed project record.";

/// The issue of an item whose prompt is a placeholder.
pub const ISSUE_PLACEHOLDER_PROMPT: &'static str =
    "Prompt is a placeholder; define a real prompt before launching.";

/// Contains launchability flags and diagnostics derived from a pending-work item.
#[derive(Debug, Clone, PartialEq, Eq)]
pub struct DerivedFlags {
    pub issues: Vec<String>,
    pub launchable: bool,
    pub needs_prompt: bool,
}

/// Contains a pending-work item's persisted data and derived diagnostics before project
/// attachment.
#[derive(Debug, Clone, PartialEq, Eq)]
pub struct EnrichedPendingWorkItem {
    pub id: RecordId,
    pub status: WorkItemStatus,
    pub session: String,
    pub prompt: String,
    pub repo: Option<String>,
    pub note: String,
    pub item_file: Option<String>,
    pub line: usize,
    pub format: String,
    pub launchable: bool,
    pub needs_prompt: bool,
    pub issues: Vec<String>,
    pub section: Option<String>,
    pub prereq: Option<String>,
    pub effort: Option<String>,
    pub tags: Option<String>,
    pub created: Option<String>,
}

/// A display section label: the canonical name of a known alias, else the label trimmed.
pub open spec fn section_label_of(label: Seq<char>) -> Seq<char> {
    match section_alias(label) {
        Some(a) => a,
        None => trim(label),
    }
}

/// A placeholder prompt: blank, or `TODO` or `TBD` in any ASCII case.
pub open spec fn is_placeholder(prompt: Seq<char>) -> bool {
    trim(prompt).len() == 0 || eq_ignore_case(trim(prompt), "TODO"@) || eq_ignore_case(
        trim(prompt),
        "TBD"@,
    )
}

pub open spec fn missing_note_issue_of(path: Seq<char>) -> Seq<char> {
    "Work-item note missing: "@ + path
}

/// The diagnostics of an item, in repository, missing-note, placeholder order.
pub open spec fn issues_of(
    repo: Option<Seq<char>>,
    prompt: Seq<char>,
    missing_note: Option<Seq<char>>,
) -> Seq<Seq<char>> {
    let no_repo: Seq<Seq<char>> = match repo {
        Some(r) => if trim(r).len() == 0 {
            seq![ISSUE_NO_REPO@]
        } else {
            seq![]
        },
        None => seq![ISSUE_NO_REPO@],
    };
    let note: Seq<Seq<char>> = match missing_note {
        Some(path) => seq![missing_note_issue_of(path)],
        None => seq![],
    };
    let placeholder: Seq<Seq<char>> = if is_placeholder(prompt) {
        seq![ISSUE_PLACEHOLDER_PROMPT@]
    } else {
        seq![]
    };
    no_repo + note + placeholder
}

/// The identifier an item shows: its canonical identifier, or `project:ordinal` inline.
pub open spec fn record_id_text(id: RecordId, project: Seq<char>) -> Seq<char> {
    match id {
        RecordId::Item(i) => i@,
        RecordId::Inline(ordinal) => project + ":"@ + decimal(ordinal as nat),
    }
}

/// The session name of an item: its title, or its canonical identifier when the title is
/// blank.
pub open spec fn session_of(item: PendingWorkItem) -> Seq<char> {
    match item.id {
        RecordId::Item(id) => if trim(item.title@).len() == 0 {
            id@
        } else {
            item.title@
        },
        RecordId::Inline(_) => item.title@,
    }
}

pub open spec fn missing_note_of(m: Materialization) -> Option<Seq<char>> {
    match m {
        Materialization::MissingNote { expected } => Some(expected@),
        _ => None,
    }
}

// ---------------------------------------------------------------------------------------
/// Canonicalizes known section aliases and trims unknown labels for display.
pub fn normalize_section_label(label: &str) -> (r: String)
    ensures
        r@ == section_label_of(label@),
{
    match alias(label) {
        Some(a) => a.to_owned(),
        None => {
            let v = chars_of(label);
            let t = trimmed(&v);
            proof {
                assert(t@.subrange(0, t.len() as int) =~= t@);
            }
            string_of(&t, 0, t.len())
        },
    }
}

/// The display label of an optional section.
pub fn normalize_section(section: Option<&str>) -> (r: Option<String>)
    ensures
        match section {
            Some(label) => opt_view(r) == Some(section_label_of(label@)),
            None => r is None,
        },
{
    match section {
        Some(label) => Some(normalize_section_label(label)),
        None => None,
    }
}

/// Whether a prompt is a placeholder that must be replaced before launching.
pub fn is_placeholder_prompt(prompt: &str) -> (r: bool)
    ensures
        r == is_placeholder(prompt@),
{
    let v = chars_of(prompt);
    let t = trimmed(&v);
    let ts = string_of(&t, 0, t.len());
    proof {
        assert(t@.subrange(0, t.len() as int) =~= t@);
    }
    t.len() == 0 || str_eq_ignore_case(ts.as_str(), "TODO") || str_eq_ignore_case(
        ts.as_str(),
        "TBD",
    )
}

/// The issue of an item whose note file is missing at `path`.
pub fn missing_note_issue(path: &str) -> (r: String)
    ensures
        r@ == missing_note_issue_of(path@),
{
    concat("Work-item note missing: ", path)
}

/// The identifier of a legacy inline entry: `project:ordinal`.
pub fn inline_record_id(project: &str, ordinal: usize) -> (r: String)
    ensures
        r@ == project@ + ":"@ + decimal(ordinal as nat),
{
    let with_colon = concat(project, ":");
    let digits = decimal_chars(ordinal as u64);
    let number = string_of(&digits, 0, digits.len());
    proof {
        assert(digits@.subrange(0, digits.len() as int) =~= digits@);
    }
    concat(with_colon.as_str(), number.as_str())
}

/// Derives diagnostics in repository, missing-note, placeholder order; an item is
/// launchable when there are none.
pub fn derive_flags(repo: Option<&str>, prompt: &str, missing_note: Option<&str>) -> (r: DerivedFlags)
    ensures
        string_views(r.issues@) == issues_of(
            match repo {
                Some(x) => Some(x@),
                None => None,
            },
            prompt@,
            match missing_note {
                Some(x) => Some(x@),
                None => None,
            },
        ),
        r.needs_prompt == is_placeholder(prompt@),
        r.launchable == (r.issues@.len() == 0),
{
    let mut issues: Vec<String> = Vec::new();
    let no_repo = match repo {
        Some(value) => {
            let v = chars_of(value);
            trimmed(&v).len() == 0
        },
        None => true,
    };
    if no_repo {
        issues.push(ISSUE_NO_REPO.to_owned());
    }
    match missing_note {
        Some(path) => {
            issues.push(missing_note_issue(path));
        },
        None => {},
    }
    let needs_prompt = is_placeholder_prompt(prompt);
    if needs_prompt {
        issues.push(ISSUE_PLACEHOLDER_PROMPT.to_owned());
    }
    proof {
        let rv = match repo {
            Some(x) => Some(x@),
            None => None::<Seq<char>>,
        };
        let mv = match missing_note {
            Some(x) => Some(x@),
            None => None::<Seq<char>>,
        };
        assert(string_views(issues@) =~= issues_of(rv, prompt@, mv));
    }
    let launchable = issues.len() == 0;
    DerivedFlags { issues, launchable, needs_prompt }
}

/// Projects a persisted item into the fields consumed by list, verify, and session:
/// materialization decides `format` and `item_file`, a missing note adds an issue, a blank
/// title falls back to the canonical identifier, and section labels are canonicalized.
pub fn enrich(item: &PendingWorkItem, repo: Option<&str>) -> (r: EnrichedPendingWorkItem)
    ensures
        r.id == item.id,
        r.status == item.status,
        r.session@ == session_of(*item),
        r.prompt@ == trim(item.body@),
        opt_view(r.repo) == match repo {
            Some(x) => Some(x@),
            None => None,
        },
        match item.placement {
            Some(p) => r.note@ == p.index_path@ && r.line == p.line,
            None => r.note@ == item.locator@ && r.line == 1,
        },
        match item.materialization {
            Materialization::InlineLegacy => r.format@ == "legacy"@ && r.item_file is None,
            _ => r.format@ == "file"@ && opt_view(r.item_file) == Some(item.locator@),
        },
        string_views(r.issues@) == issues_of(
            match repo {
                Some(x) => Some(x@),
                None => None,
            },
            trim(item.body@),
            missing_note_of(item.materialization),
        ),
        r.needs_prompt == is_placeholder(trim(item.body@)),
        r.launchable == (r.issues@.len() == 0),
        opt_view(r.section) == match item.section {
            Some(s) => Some(section_label_of(s@)),
            None => None,
        },
        opt_view(r.prereq) == opt_view(item.prereq),
        opt_view(r.effort) == opt_view(item.effort),
        opt_view(r.tags) == opt_view(item.tags),
        opt_view(r.created) == opt_view(item.created),
{
    let body = chars_of(item.body.as_str());
    let t = trimmed(&body);
    let prompt = string_of(&t, 0, t.len());
    proof {
        assert(t@.subrange(0, t.len() as int) =~= t@);
    }
    let (format, item_file, missing_note): (String, Option<String>, Option<&str>) = match &item.materialization {
        Materialization::NoteFile => ("file".to_owned(), Some(item.locator.clone()), None),
        Materialization::MissingNote { expected } => (
            "file".to_owned(),
            Some(item.locator.clone()),
            Some(expected.as_str()),
        ),
        Materialization::InlineLegacy => ("legacy".to_owned(), None, None),
    };
    let flags = derive_flags(repo, prompt.as_str(), missing_note);
    let session = match &item.id {
        RecordId::Item(id) => {
            let title = chars_of(item.title.as_str());
            if trimmed(&title).len() == 0 {
                id.clone()
            } else {
                item.title.clone()
            }
        },
        RecordId::Inline(_) => item.title.clone(),
    };
    let (note, line) = match &item.placement {
        Some(placement) => (placement.index_path.clone(), placement.line),
        None => (item.locator.clone(), 1),
    };
    let id = match &item.id {
        RecordId::Item(i) => RecordId::Item(i.clone()),
        RecordId::Inline(n) => RecordId::Inline(*n),
    };
    EnrichedPendingWorkItem {
        id,
        status: item.status,
        session,
        prompt,
        repo: match repo {
            Some(r) => Some(r.to_owned()),
            None => None,
        },
        note,
        line,
        item_file,
        format,
        launchable: flags.launchable,
        needs_prompt: flags.needs_prompt,
        issues: flags.issues,
        section: match &item.section {
            Some(s) => Some(normalize_section_label(s.as_str())),
            None => None,
        },
        prereq: clone_opt(&item.prereq),
        effort: clone_opt(&item.effort),
        tags: clone_opt(&item.tags),
        created: clone_opt(&item.created),
    }
}

fn clone_opt(o: &Option<String>) -> (r: Option<String>)
    ensures
        opt_view(r) == opt_view(*o),
{
    match o {
        Some(s) => Some(s.clone()),
        None => None,
    }
}

impl EnrichedPendingWorkItem {
    /// Attaches the project and composes inline ids as `<project>:<ordinal>`.
    pub fn into_pending_work_item_view(self, project: String) -> (r: PendingWorkItemView)
        ensures
            r.id@ == record_id_text(self.id, project@),
            r.project == project,
            r.status == self.status,
            r.session == self.session,
            r.prompt == self.prompt,
            r.repo == self.repo,
            r.note == self.note,
            r.item_file == self.item_file,
            r.line == self.line,
            r.format == self.format,
            r.launchable == self.launchable,
            r.needs_prompt == self.needs_prompt,
            r.issues == self.issues,
            r.section == self.section,
            r.prereq == self.prereq,
            r.prerequisite_statuses@.len() == 0,
            r.effort == self.effort,
            r.tags == self.tags,
            r.created == self.created,
    {
        let id = match &self.id {
            RecordId::Item(id) => id.clone(),
            RecordId::Inline(ordinal) => inline_record_id(project.as_str(), *ordinal),
        };
        PendingWorkItemView {
            id,
            project,
            status: self.status,
            session: self.session,
            prompt: self.prompt,
            repo: self.repo,
            note: self.note,
            item_file: self.item_file,
            line: self.line,
            format: self.format,
            launchable: self.launchable,
            needs_prompt: self.needs_prompt,
            issues: self.issues,
            section: self.section,
            prereq: self.prereq,
            prerequisite_statuses: Vec::new(),
            effort: self.effort,
            tags: self.tags,
            created: self.created,
        }
    }
}

/// Normalizing a section label twice gives what normalizing it once gives.
pub proof fn lemma_section_label_idempotent(label: Seq<char>)
    ensures
        section_label_of(section_label_of(label)) == section_label_of(label),
{
    lemma_section_alias_stable(label);
    lemma_trim_idempotent(label);
}

} // verus!
