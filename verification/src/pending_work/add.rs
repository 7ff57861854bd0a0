//! Preparation of a new pending-work item: its section, its title and prompt for a plan,
//! the project it goes to, and what is reported back.
use vstd::prelude::*;

use crate::handoff::naming::squeeze;
use crate::handoff::lifecycle::commit::{commit_reports, commit_scaffold, CommitError};
use crate::handoff::lifecycle::preflight::{newest_handoff, preflight_scaffold};
use crate::handoff::ports::HandoffStore;
use crate::handoff::{handoff_message, handoff_reports, HandoffError, HandoffMutationOk};
use crate::patterns::{
    file_stem_of, path_file_stem, regex_replace_every, regex_replace_first, regex_split_text,
    replace_every, replace_first, split_text,
};
use crate::pending_work::close::project_of_id;
use crate::pending_work::find::{CreatedItem, NewItem, PendingWorkStore};
use crate::pending_work::prerequisite::{
    parsed_prerequisites, validate_and_merge, PrerequisiteValidationError,
};
use crate::pending_work::tags::{
    all_valid_tags, canonical_tags, contains_name, first_invalid_at, parse_tag_values,
    valid_tag, value_pieces,
};
use crate::ports::{Clock, TitleRules};
use crate::pending_work::project_registry::{
    opt_view, resolution_message, resolution_of, resolve_rows, row_repository, ProjectRegistry,
    ProjectResolutionError, Resolution, Row,
};
use crate::text::{
    chars_of, concat, debug_quoted, debug_quoted_of, display_text, displays, eq_ignore_case,
    is_whitespace, join, join_with, str_eq_ignore_case, string_of, string_views, to_lowercase,
    trim, trimmed, unicode_lowercase,
};

verus! {

/// Describes the pending-work item and index section created by an add.
#[derive(Debug, Clone, PartialEq, Eq)]
pub struct AddedItem {
    /// Canonical identifier allocated to the item.
    pub id: String,
    /// Managed project containing the item.
    pub project: String,
    /// Persisted item title.
    pub title: String,
    /// Path of the created item note.
    pub note_path: String,
    /// Index section created during insertion, when one was absent.
    pub created_section: Option<String>,
    /// Whether an explicit title required metadata-safe normalization.
    pub title_normalized: bool,
    /// Linked handoff side effect.
    pub handoff: HandoffMutationOk,
}

/// The item an add created, without its handoff side effect.
#[derive(Debug, Clone, PartialEq, Eq)]
pub struct AddPendingWorkItemOk {
    pub id: String,
    pub project: String,
    pub title: String,
    pub note_path: String,
    pub created_section: Option<String>,
    pub title_normalized: bool,
}

/// Carries add diagnostics that remain observable after a later failure.
#[derive(Debug, Clone, PartialEq, Eq)]
pub struct AddPendingWorkDiagnostics {
    /// Managed project receiving the item.
    pub project: String,
    /// Index section created during insertion, when one was absent.
    pub created_section: Option<String>,
    /// Whether an explicit title required metadata-safe normalization.
    pub title_normalized: bool,
}

/// Selects the semantic source used to create a pending-work item.
#[derive(Debug, Clone, PartialEq, Eq)]
pub enum AddPendingWorkSource {
    /// Creates an item from a direct prompt and optional explicit title.
    Prompt {
        /// Pending-work prompt.
        prompt: String,
        /// Optional explicit title.
        title: Option<String>,
    },
    /// Creates an item that continues a plan path.
    Plan {
        /// Plan path retained in the generated prompt.
        path: String,
    },
    /// Creates an item from the newest handoff in the managed repository.
    NewestHandoff,
}

/// Requests creation of one pending-work item.
#[derive(Debug, Clone)]
pub struct AddPendingWorkItem {
    /// Managed project name or identifier prefix.
    pub project_identifier: Option<String>,
    /// Semantic prompt source.
    pub source: Option<AddPendingWorkSource>,
    /// Authored creation date; today's date when absent.
    pub date: Option<String>,
    /// Optional canonical index section.
    pub section: Option<PendingWorkSection>,
    /// Raw repeated prerequisite values.
    pub prerequisites: Vec<String>,
    /// Optional effort tier.
    pub effort: Option<u8>,
    /// Raw repeated tag values.
    pub tags: Vec<String>,
}

/// Selects one canonical pending-work index section.
#[derive(Debug, Clone, Copy, PartialEq, Eq, Structural)]
pub enum PendingWorkSection {
    /// Work intentionally deferred to a future queue.
    Future,
    /// Work requiring human action.
    Human,
    /// Work kept in the low-priority queue.
    LowPriority,
}

/// Reports add preparation or persistence failures; `E` is the storage adapter's error.
#[derive(Debug)]
pub enum AddPendingWorkError<E> {
    /// Required positional add input was absent.
    Usage,
    /// The managed project identifier could not be resolved uniquely.
    ProjectResolution(ProjectResolutionError),
    /// The selected project has no usable directory source.
    ProjectHasNoDirectorySource { project: String },
    /// A raw section was not a canonical section name.
    InvalidSection { value: String },
    /// A raw tag was invalid.
    InvalidTag { raw: String },
    /// A raw prerequisite identifier was invalid.
    InvalidPrerequisiteId { raw: String },
    /// A prerequisite flag contained no identifier.
    MissingPrerequisiteId,
    /// One or more prerequisite records were absent.
    UnknownPrerequisiteIds { ids: Vec<String> },
    /// A linked handoff failed read-only validation.
    HandoffPreflight(HandoffError<E>),
    /// An item or index write failed.
    WriteStore { diagnostics: AddPendingWorkDiagnostics, source: E },
    /// The item was created before its linked handoff failed.
    HandoffAfterPendingWork {
        /// Created pending-work identifier.
        pending_work_identifier: String,
        /// Diagnostics of the successful insertion.
        diagnostics: AddPendingWorkDiagnostics,
        /// Handoff failure after the item was written.
        source: CommitError<E>,
    },
}

/// The section a canonical name selects, compared after trimming and ignoring ASCII case.
pub open spec fn section_named(value: Seq<char>) -> Option<PendingWorkSection> {
    let t = trim(value);
    if eq_ignore_case(t, "future"@) {
        Some(PendingWorkSection::Future)
    } else if eq_ignore_case(t, "human"@) {
        Some(PendingWorkSection::Human)
    } else if eq_ignore_case(t, "low-prio"@) {
        Some(PendingWorkSection::LowPriority)
    } else {
        None
    }
}

pub open spec fn section_label(section: PendingWorkSection) -> Seq<char> {
    match section {
        PendingWorkSection::Future => "Future"@,
        PendingWorkSection::Human => "Human"@,
        PendingWorkSection::LowPriority => "Low-prio"@,
    }
}

impl PendingWorkSection {
    /// Parses a canonical section name case-insensitively.
    pub fn from_name(value: &str) -> (r: Option<Self>)
        ensures
            r == section_named(value@),
    {
        let v = chars_of(value);
        let t = trimmed(&v);
        let ts = string_of(&t, 0, t.len());
        proof {
            assert(t@.subrange(0, t.len() as int) =~= t@);
        }
        if str_eq_ignore_case(ts.as_str(), "future") {
            Some(PendingWorkSection::Future)
        } else if str_eq_ignore_case(ts.as_str(), "human") {
            Some(PendingWorkSection::Human)
        } else if str_eq_ignore_case(ts.as_str(), "low-prio") {
            Some(PendingWorkSection::LowPriority)
        } else {
            None
        }
    }

    /// Returns the canonical persisted section label.
    pub fn as_str(self) -> (r: &'static str)
        ensures
            r@ == section_label(self),
    {
        match self {
            PendingWorkSection::Future => "Future",
            PendingWorkSection::Human => "Human",
            PendingWorkSection::LowPriority => "Low-prio",
        }
    }
}

/// The section of an add: the named section, `Human` for a human item, or none.
pub fn resolve_section<E>(section: Option<&str>, human: bool) -> (r: Result<
    Option<PendingWorkSection>,
    AddPendingWorkError<E>,
>)
    ensures
        match section {
            Some(value) => match section_named(value@) {
                Some(s) => r matches Ok(Some(x)) && x == s,
                None => r matches Err(AddPendingWorkError::InvalidSection { value: v }) && v@
                    == value@,
            },
            None => if human {
                r matches Ok(Some(PendingWorkSection::Human))
            } else {
                r matches Ok(None)
            },
        },
{
    match section {
        Some(value) => match PendingWorkSection::from_name(value) {
            Some(s) => Ok(Some(s)),
            None => Err(AddPendingWorkError::InvalidSection { value: value.to_owned() }),
        },
        None => if human {
            Ok(Some(PendingWorkSection::Human))
        } else {
            Ok(None)
        },
    }
}

pub open spec fn plan_prompt_of(path: Seq<char>) -> Seq<char> {
    "continue the plan at "@ + path
}

/// The prompt of an item that continues the plan at `path`.
pub fn plan_continuation_prompt(path: &str) -> (r: String)
    ensures
        r@ == plan_prompt_of(path@),
{
    concat("continue the plan at ", path)
}

/// The prerequisite failure reported by an add.
pub fn map_prerequisite_error<E>(error: PrerequisiteValidationError) -> (r: AddPendingWorkError<E>)
    ensures
        match error {
            PrerequisiteValidationError::InvalidId { raw } => r matches AddPendingWorkError::InvalidPrerequisiteId { raw: x } && x == raw,
            PrerequisiteValidationError::MissingId => r is MissingPrerequisiteId,
            PrerequisiteValidationError::UnknownIds { ids } => r matches AddPendingWorkError::UnknownPrerequisiteIds { ids: x } && x == ids,
        },
{
    match error {
        PrerequisiteValidationError::InvalidId { raw } => AddPendingWorkError::InvalidPrerequisiteId { raw },
        PrerequisiteValidationError::MissingId => AddPendingWorkError::MissingPrerequisiteId,
        PrerequisiteValidationError::UnknownIds { ids } => AddPendingWorkError::UnknownPrerequisiteIds { ids },
    }
}

/// The added item a creation describes.
pub fn added_item(
    project: &str,
    created: CreatedItem,
    title_normalized: bool,
    handoff: HandoffMutationOk,
) -> (r: AddedItem)
    ensures
        r.id == created.id,
        r.project@ == project@,
        r.title == created.title,
        r.note_path == created.locator,
        r.created_section == created.created_section,
        r.title_normalized == title_normalized,
        r.handoff == handoff,
{
    AddedItem {
        id: created.id,
        project: project.to_owned(),
        title: created.title,
        note_path: created.locator,
        created_section: created.created_section,
        title_normalized,
        handoff,
    }
}

/// Resolves the project of an add and requires it to have a non-blank repository.
pub fn project_mapped<E>(project_identifier: &str, projects: &ProjectRegistry) -> (r: Result<
    String,
    AddPendingWorkError<E>,
>)
    ensures
        match resolve_rows(projects.rows(), project_identifier@) {
            Resolution::Found(name) => match row_repository(projects.rows(), name) {
                Some(repo) => if trim(repo).len() > 0 {
                    r matches Ok(p) && p@ == name
                } else {
                    r matches Err(AddPendingWorkError::ProjectHasNoDirectorySource { project })
                        && project@ == name
                },
                None => r matches Err(AddPendingWorkError::ProjectHasNoDirectorySource { project })
                    && project@ == name,
            },
            resolution => r matches Err(AddPendingWorkError::ProjectResolution(e)) && resolution_of(
                Err(e),
            ) == resolution,
        },
{
    let project = match projects.resolve(project_identifier) {
        Ok(project) => project.clone(),
        Err(e) => return Err(AddPendingWorkError::ProjectResolution(e)),
    };
    let blank = match projects.repo_for(project.as_str()) {
        Some(repo) => {
            let v = chars_of(repo.as_str());
            trimmed(&v).len() == 0
        },
        None => true,
    };
    if blank {
        return Err(AddPendingWorkError::ProjectHasNoDirectorySource { project });
    }
    Ok(project)
}

pub open spec fn not_whitespace() -> spec_fn(char) -> bool {
    |c: char| !is_whitespace(c)
}

pub open spec fn non_empty_word() -> spec_fn(Seq<char>) -> bool {
    |w: Seq<char>| w.len() > 0
}

pub open spec fn lowercase_word() -> spec_fn(Seq<char>) -> Seq<char> {
    |w: Seq<char>| unicode_lowercase(w)
}

pub open spec fn not_excluded() -> spec_fn(Seq<char>) -> bool {
    |w: Seq<char>| w != "kickoff"@ && w != "handoff"@ && w != "plan"@
}

/// The separator and date-prefix patterns of plan titles.
pub open spec fn separators_pattern() -> Seq<char> {
    "[-_]+"@
}

pub open spec fn date_prefix_pattern() -> Seq<char> {
    "^\\d{4}-\\d{2}-\\d{2}-"@
}

/// The title of an item continuing the plan at `path` in `project`: the project name with
/// separators as single spaces, lowercased, then the plan file's lowercased words other than
/// `kickoff`, `handoff` and `plan` (its dated prefix dropped), or `plan` when none remain.
/// `None` when a pattern does not compile.
pub open spec fn plan_title_of(project: Seq<char>, path: Seq<char>) -> Option<Seq<char>> {
    let stem = match path_file_stem(path) {
        Some(s) => s,
        None => Seq::empty(),
    };
    match (
        regex_replace_first(date_prefix_pattern(), stem, Seq::empty()),
        regex_replace_every(separators_pattern(), project, " "@),
    ) {
        (Some(undated), Some(spaced)) => match regex_split_text(separators_pattern(), undated) {
            Some(pieces) => {
                let words = pieces.filter(non_empty_word()).map_values(lowercase_word()).filter(
                    not_excluded(),
                );
                let name = unicode_lowercase(squeeze(spaced, not_whitespace(), ' ').0);
                if words.len() == 0 {
                    Some(name + " plan"@)
                } else {
                    Some(name + " "@ + join_with(words, " "@))
                }
            },
            None => None,
        },
        _ => None,
    }
}

/// What a plan title is built from: the project name with its separators as single spaces,
/// lowercased, and the pieces of the plan file's name (dated prefix dropped) between its
/// `-` and `_` runs. `None` when a pattern does not compile.
pub open spec fn plan_parts(project: Seq<char>, path: Seq<char>) -> Option<(Seq<char>, Seq<Seq<char>>)> {
    let stem = match path_file_stem(path) {
        Some(s) => s,
        None => Seq::empty(),
    };
    match (
        regex_replace_first(date_prefix_pattern(), stem, Seq::empty()),
        regex_replace_every(separators_pattern(), project, " "@),
    ) {
        (Some(undated), Some(spaced)) => match regex_split_text(separators_pattern(), undated) {
            Some(pieces) => Some((unicode_lowercase(squeeze(spaced, not_whitespace(), ' ').0), pieces)),
            None => None,
        },
        _ => None,
    }
}

/// Whether `words` are the lowercased non-empty `pieces` other than `kickoff`, `handoff` and
/// `plan`: each word is one of them, none is left out, and none of the three is among them.
pub open spec fn keeps_plan_words(words: Seq<Seq<char>>, pieces: Seq<Seq<char>>) -> bool {
    &&& forall|i: int|
        0 <= i < words.len() ==> #[trigger] words[i] != "kickoff"@ && words[i] != "handoff"@
            && words[i] != "plan"@
    &&& forall|i: int|
        0 <= i < words.len() ==> exists|j: int|
            0 <= j < pieces.len() && pieces[j].len() > 0 && #[trigger] words[i]
                == unicode_lowercase(pieces[j])
    &&& forall|j: int|
        0 <= j < pieces.len() && pieces[j].len() > 0 && unicode_lowercase(#[trigger] pieces[j])
            != "kickoff"@ && unicode_lowercase(pieces[j]) != "handoff"@ && unicode_lowercase(
            pieces[j],
        ) != "plan"@ ==> words.contains(unicode_lowercase(pieces[j]))
}

/// A plan title is the project name followed by the plan file's words, leaving out
/// `kickoff`, `handoff` and `plan`, or followed by `plan` when no word is left.
pub proof fn lemma_plan_title_leaves_out_lifecycle_words(project: Seq<char>, path: Seq<char>)
    ensures
        plan_title_of(project, path) is Some <==> plan_parts(project, path) is Some,
        plan_title_of(project, path) is Some ==> ({
            let title = plan_title_of(project, path)->0;
            let parts = plan_parts(project, path)->0;
            let name = parts.0;
            let pieces = parts.1;
            exists|words: Seq<Seq<char>>|
                #[trigger] keeps_plan_words(words, pieces) && title == if words.len() == 0 {
                    name + " plan"@
                } else {
                    name + " "@ + join_with(words, " "@)
                }
        }),
{
    reveal_strlit("kickoff");
    reveal_strlit("handoff");
    reveal_strlit("plan");
    if plan_parts(project, path) is Some {
        let parts = plan_parts(project, path)->0;
        let pieces = parts.1;
        let f = non_empty_word();
        let g = lowercase_word();
        let h = not_excluded();
        let filtered = pieces.filter(f);
        let mapped = filtered.map_values(g);
        let words = mapped.filter(h);
        broadcast use vstd::seq_lib::group_filter_ensures;
        assert forall|i: int| 0 <= i < words.len() implies #[trigger] words[i] != "kickoff"@
            && words[i] != "handoff"@ && words[i] != "plan"@ by {
            assert(h(words[i]));
        }
        assert forall|i: int| 0 <= i < words.len() implies exists|j: int|
            0 <= j < pieces.len() && pieces[j].len() > 0 && #[trigger] words[i]
                == unicode_lowercase(pieces[j]) by {
            assert(words.contains(words[i]));
            mapped.lemma_filter_contains_rev(h, words[i]);
            let k = choose|k: int| 0 <= k < mapped.len() && mapped[k] == words[i];
            assert(filtered.contains(filtered[k]));
            pieces.lemma_filter_contains_rev(f, filtered[k]);
            let j = choose|j: int| 0 <= j < pieces.len() && pieces[j] == filtered[k];
            assert(f(filtered[k]));
            assert(words[i] == unicode_lowercase(pieces[j]));
        }
        assert forall|j: int|
            0 <= j < pieces.len() && pieces[j].len() > 0 && unicode_lowercase(#[trigger] pieces[j])
                != "kickoff"@ && unicode_lowercase(pieces[j]) != "handoff"@ && unicode_lowercase(
                pieces[j],
            ) != "plan"@ implies words.contains(unicode_lowercase(pieces[j])) by {
            pieces.lemma_filter_contains(f, j);
            let k = choose|k: int| 0 <= k < filtered.len() && filtered[k] == pieces[j];
            assert(mapped[k] == unicode_lowercase(pieces[j]));
            mapped.lemma_filter_contains(h, k);
        }
        assert(keeps_plan_words(words, pieces));
    }
}

/// The whitespace-separated words of `v` joined by single spaces.
pub fn single_spaced(v: &Vec<char>) -> (r: String)
    ensures
        r@ == squeeze(v@, not_whitespace(), ' ').0,
{
    let mut result = String::new();
    let mut pending = false;
    let mut i: usize = 0;
    while i < v.len()
        invariant
            i <= v.len(),
            (result@, pending) == squeeze(v@.take(i as int), not_whitespace(), ' '),
        decreases v.len() - i,
    {
        let c = v[i];
        assert(v@.take(i + 1).drop_last() =~= v@.take(i as int));
        let empty = result.unicode_len() == 0;
        if !crate::text::is_whitespace_char(c) {
            if pending && !empty {
                result.push(' ');
            }
            result.push(c);
            pending = false;
        } else {
            pending = true;
        }
        i = i + 1;
    }
    assert(v@.take(v.len() as int) =~= v@);
    result
}

/// The title of an item that continues the plan at `path`; see [`plan_title_of`].
pub fn plan_title(project: &str, path: &str) -> (r: Option<String>)
    ensures
        opt_view(r) == plan_title_of(project@, path@),
{
    proof {
        reveal_strlit("");
        reveal_strlit(" ");
    }
    let stem = match file_stem_of(path) {
        Some(s) => s,
        None => String::new(),
    };
    assert(stem@ == match path_file_stem(path@) {
        Some(s) => s,
        None => Seq::<char>::empty(),
    });
    assert("^\\d{4}-\\d{2}-\\d{2}-"@ == date_prefix_pattern());
    assert(""@ == Seq::<char>::empty());
    let undated = match replace_first("^\\d{4}-\\d{2}-\\d{2}-", stem.as_str(), "") {
        Some(u) => u,
        None => return None,
    };
    let spaced = match replace_every("[-_]+", project, " ") {
        Some(s) => s,
        None => return None,
    };
    let pieces = match split_text("[-_]+", undated.as_str()) {
        Some(p) => p,
        None => return None,
    };
    let ghost pv = string_views(pieces@);
    let mut words: Vec<String> = Vec::new();
    let mut i: usize = 0;
    while i < pieces.len()
        invariant
            i <= pieces.len(),
            pv == string_views(pieces@),
            string_views(words@) == pv.take(i as int).filter(non_empty_word()).map_values(
                lowercase_word(),
            ).filter(not_excluded()),
        decreases pieces.len() - i,
    {
        let piece = &pieces[i];
        let ghost before = string_views(words@);
        proof {
            let f = non_empty_word();
            let g = lowercase_word();
            let h = not_excluded();
            assert(pv.take(i + 1) =~= pv.take(i as int).push(pv[i as int]));
            pv.take(i as int).lemma_filter_push(pv[i as int], f);
            if piece@.len() > 0 {
                assert(pv.take(i + 1).filter(f).map_values(g) =~= pv.take(i as int).filter(
                    f,
                ).map_values(g).push(unicode_lowercase(piece@)));
                pv.take(i as int).filter(f).map_values(g).lemma_filter_push(
                    unicode_lowercase(piece@),
                    h,
                );
            } else {
                assert(pv.take(i + 1).filter(f) =~= pv.take(i as int).filter(f));
            }
        }
        if piece.unicode_len() > 0 {
            let word = to_lowercase(piece.as_str());
            let excluded = crate::text::str_eq(word.as_str(), "kickoff") || crate::text::str_eq(
                word.as_str(),
                "handoff",
            ) || crate::text::str_eq(word.as_str(), "plan");
            if !excluded {
                let ghost wv = word@;
                words.push(word);
                proof {
                    assert(string_views(words@) =~= before.push(wv));
                }
            }
        }
        i = i + 1;
    }
    assert(pv.take(pieces.len() as int) =~= pv);
    let sv = chars_of(spaced.as_str());
    let collapsed = single_spaced(&sv);
    let name = to_lowercase(collapsed.as_str());
    if words.len() == 0 {
        Some(concat(name.as_str(), " plan"))
    } else {
        let spaced_name = concat(name.as_str(), " ");
        let joined = join(&words, " ");
        Some(concat(spaced_name.as_str(), joined.as_str()))
    }
}

/// A command that lacks its project, its source, or a non-blank prompt.
pub open spec fn is_usage_error(cmd: AddPendingWorkItem) -> bool {
    ||| cmd.project_identifier is None
    ||| cmd.source is None
    ||| (cmd.source matches Some(AddPendingWorkSource::Prompt { prompt, .. }) && trim(prompt@).len()
        == 0)
}

/// The repository a managed project's items are added under: its non-blank repository.
pub open spec fn mapped_repository(rows: Seq<Row>, name: Seq<char>) -> Option<Seq<char>> {
    match row_repository(rows, name) {
        Some(repo) => if trim(repo).len() > 0 {
            Some(repo)
        } else {
            None
        },
        None => None,
    }
}

/// The tag pieces of an add's raw tag values.
pub open spec fn add_tag_pieces(cmd: AddPendingWorkItem) -> Seq<Seq<char>> {
    value_pieces(string_views(cmd.tags@))
}

/// Whether an add's tag values parse: none were given, or every piece is a valid tag.
pub open spec fn add_tags_parse(cmd: AddPendingWorkItem) -> bool {
    cmd.tags@.len() == 0 || all_valid_tags(add_tag_pieces(cmd))
}

/// Whether an add creates a linked handoff: it carries the `handoff` tag and does not
/// itself continue the newest handoff.
pub open spec fn add_scaffolds(cmd: AddPendingWorkItem) -> bool {
    &&& cmd.tags@.len() > 0
    &&& all_valid_tags(add_tag_pieces(cmd))
    &&& canonical_tags(add_tag_pieces(cmd)).contains("handoff"@)
    &&& !(cmd.source matches Some(AddPendingWorkSource::NewestHandoff))
}

/// Whether an add names an explicit, non-blank title.
pub open spec fn has_explicit_title(cmd: AddPendingWorkItem) -> bool {
    cmd.source matches Some(AddPendingWorkSource::Prompt { title: Some(t), .. }) && trim(t@).len()
        > 0
}

/// What an add settled before writing anything.
struct PreparedAdd {
    project: String,
    repository: String,
    title: String,
    prompt: String,
    title_normalized: bool,
    newest_handoff: bool,
}

/// What the source of a command prepares once its project `name` is mapped.
spec fn prepared_from<E>(cmd: AddPendingWorkItem, rows: Seq<Row>, name: Seq<char>, r: Result<
    PreparedAdd,
    AddPendingWorkError<E>,
>) -> bool {
    let repository = mapped_repository(rows, name);
    match cmd.source {
        Some(AddPendingWorkSource::Prompt { prompt, title }) => r matches Ok(p) && p.project@
            == name && Some(p.repository@) == repository && p.prompt == prompt
            && !p.newest_handoff && (!has_explicit_title(cmd) ==> !p.title_normalized),
        Some(AddPendingWorkSource::Plan { path }) => match plan_title_of(name, path@) {
            Some(t) => r matches Ok(p) && p.project@ == name && Some(p.repository@) == repository
                && p.title@ == t && p.prompt@ == plan_prompt_of(path@) && !p.title_normalized
                && !p.newest_handoff,
            None => r matches Err(AddPendingWorkError::Usage),
        },
        _ => (r matches Ok(p) ==> p.project@ == name && Some(p.repository@) == repository
            && p.newest_handoff && !p.title_normalized) && (r matches Err(e) ==> e is HandoffPreflight),
    }
}

/// Settles the project, repository, title and prompt of an add. A missing project or
/// source, or a blank prompt, is a usage error before the project is resolved; the project
/// must resolve and have a non-blank repository. A plan's title is the plan title (a
/// plan-title pattern that does not compile is reported as a usage error); the newest
/// handoff of the repository gives the title and prompt of a continuation.
fn prepare_source<S: HandoffStore, T: TitleRules>(
    command: &AddPendingWorkItem,
    store: &S,
    projects: &ProjectRegistry,
    titles: &T,
) -> (r: Result<PreparedAdd, AddPendingWorkError<S::Error>>)
    ensures
        is_usage_error(*command) ==> r matches Err(AddPendingWorkError::Usage),
        !is_usage_error(*command) ==> match resolve_rows(
            projects.rows(),
            command.project_identifier.unwrap()@,
        ) {
            Resolution::Found(name) => if mapped_repository(projects.rows(), name) is Some {
                prepared_from(*command, projects.rows(), name, r)
            } else {
                r matches Err(AddPendingWorkError::ProjectHasNoDirectorySource { project })
                    && project@ == name
            },
            resolution => r matches Err(AddPendingWorkError::ProjectResolution(e)) && resolution_of(
                Err(e),
            ) == resolution,
        },
{
    let identifier = match &command.project_identifier {
        Some(identifier) => identifier,
        None => return Err(AddPendingWorkError::Usage),
    };
    let source = match &command.source {
        Some(source) => source,
        None => return Err(AddPendingWorkError::Usage),
    };
    match source {
        AddPendingWorkSource::Prompt { prompt, .. } => {
            let v = chars_of(prompt.as_str());
            if trimmed(&v).len() == 0 {
                return Err(AddPendingWorkError::Usage);
            }
        },
        _ => {},
    }
    let project = match project_mapped(identifier.as_str(), projects) {
        Ok(project) => project,
        Err(e) => return Err(e),
    };
    let repository = match projects.repo_for(project.as_str()) {
        Some(repository) => repository.clone(),
        None => return Err(AddPendingWorkError::ProjectHasNoDirectorySource { project }),
    };
    match source {
        AddPendingWorkSource::Prompt { prompt, title } => {
            let explicit = match title {
                Some(t) => {
                    let v = chars_of(t.as_str());
                    if trimmed(&v).len() > 0 {
                        Some(t)
                    } else {
                        None
                    }
                },
                None => None,
            };
            let (title, title_normalized) = match explicit {
                Some(t) => (titles.normalize(t.as_str()), titles.was_normalized(t.as_str())),
                None => (titles.inferred(prompt.as_str()), false),
            };
            Ok(
                PreparedAdd {
                    project,
                    repository,
                    title,
                    prompt: prompt.clone(),
                    title_normalized,
                    newest_handoff: false,
                },
            )
        },
        AddPendingWorkSource::Plan { path } => {
            let title = match plan_title(project.as_str(), path.as_str()) {
                Some(title) => title,
                None => return Err(AddPendingWorkError::Usage),
            };
            Ok(
                PreparedAdd {
                    project,
                    repository,
                    title,
                    prompt: plan_continuation_prompt(path.as_str()),
                    title_normalized: false,
                    newest_handoff: false,
                },
            )
        },
        AddPendingWorkSource::NewestHandoff => {
            let (title, prompt) = match newest_handoff(store, repository.as_str()) {
                Ok(found) => found,
                Err(e) => return Err(AddPendingWorkError::HandoffPreflight(e)),
            };
            Ok(
                PreparedAdd {
                    project,
                    repository,
                    title,
                    prompt,
                    title_normalized: false,
                    newest_handoff: true,
                },
            )
        },
    }
}

/// Reads the tag values of an add: none when none were given.
fn parse_tags<E>(values: &Vec<String>) -> (r: Result<Option<Vec<String>>, AddPendingWorkError<E>>)
    ensures
        values@.len() == 0 ==> r matches Ok(None),
        values@.len() > 0 ==> ({
            let pieces = value_pieces(string_views(values@));
            &&& all_valid_tags(pieces) ==> (r matches Ok(Some(tags)) && string_views(tags@)
                == canonical_tags(pieces))
            &&& !all_valid_tags(pieces) ==> (r matches Err(AddPendingWorkError::InvalidTag { raw })
                && exists|k: int| first_invalid_at(pieces, k) && raw@ == pieces[k])
        }),
{
    if values.len() == 0 {
        return Ok(None);
    }
    match parse_tag_values(values) {
        Ok(tags) => Ok(Some(tags)),
        Err(raw) => {
            proof {
                let pieces = value_pieces(string_views(values@));
                let k = choose|k: int| first_invalid_at(pieces, k) && raw@ == pieces[k];
                assert(!valid_tag(pieces[k]));
            }
            Err(AddPendingWorkError::InvalidTag { raw })
        },
    }
}

/// Creates a pending-work record and its open index entry for a mapped project. The tag
/// values are read first, then the prerequisites, then the source and project; a `handoff`
/// tag scaffolds a linked handoff, checked before the item is written and written after
/// it, unless the item itself continues the newest handoff. The date is the command's, or
/// today's.
pub fn execute<S, C: Clock, T: TitleRules>(
    cmd: &AddPendingWorkItem,
    store: &S,
    projects: &ProjectRegistry,
    clock: &C,
    titles: &T,
) -> (r: Result<AddedItem, AddPendingWorkError<<S as HandoffStore>::Error>>) where
    S: HandoffStore + PendingWorkStore<Error = <S as HandoffStore>::Error>,

    ensures
        !add_tags_parse(*cmd) ==> (r matches Err(AddPendingWorkError::InvalidTag { raw })
            && exists|k: int| first_invalid_at(add_tag_pieces(*cmd), k) && raw@ == add_tag_pieces(
            *cmd,
        )[k]),
        r matches Err(AddPendingWorkError::InvalidTag { .. }) ==> !add_tags_parse(*cmd),
        add_tags_parse(*cmd) && cmd.prerequisites@.len() > 0 ==> match parsed_prerequisites(
            cmd.prerequisites@,
        ) {
            Err(Some(raw)) => r matches Err(AddPendingWorkError::InvalidPrerequisiteId { raw: x })
                && x@ == raw,
            Err(None) => r matches Err(AddPendingWorkError::MissingPrerequisiteId),
            Ok(ids) => (exists|i: int|
                0 <= i < ids.len() && project_of_id(projects.rows(), #[trigger] ids[i]) is None)
                ==> r matches Err(AddPendingWorkError::UnknownPrerequisiteIds { .. }),
        },
        (r matches Err(AddPendingWorkError::InvalidPrerequisiteId { .. }) || r matches Err(AddPendingWorkError::MissingPrerequisiteId) || r matches Err(AddPendingWorkError::UnknownPrerequisiteIds { .. }))
            ==> add_tags_parse(*cmd) && cmd.prerequisites@.len() > 0,
        add_tags_parse(*cmd) && cmd.prerequisites@.len() == 0 && is_usage_error(*cmd) ==> r matches Err(AddPendingWorkError::Usage),
        r matches Err(AddPendingWorkError::Usage) ==> is_usage_error(*cmd) || (cmd.source matches Some(
            AddPendingWorkSource::Plan { path },
        ) && cmd.project_identifier matches Some(i) && resolve_rows(projects.rows(), i@) matches Resolution::Found(
            name,
        ) && plan_title_of(name, path@) is None),
        add_tags_parse(*cmd) && cmd.prerequisites@.len() == 0 && !is_usage_error(*cmd) ==> match resolve_rows(
            projects.rows(),
            cmd.project_identifier.unwrap()@,
        ) {
            Resolution::Found(name) => mapped_repository(projects.rows(), name) is None ==> (
            r matches Err(AddPendingWorkError::ProjectHasNoDirectorySource { project }) && project@
                == name),
            resolution => r matches Err(AddPendingWorkError::ProjectResolution(e)) && resolution_of(
                Err(e),
            ) == resolution,
        },
        r matches Err(AddPendingWorkError::ProjectResolution(e)) ==> !is_usage_error(*cmd)
            && resolution_of(Err(e)) == resolve_rows(
            projects.rows(),
            cmd.project_identifier.unwrap()@,
        ),
        r matches Err(AddPendingWorkError::ProjectHasNoDirectorySource { project }) ==> (
        !is_usage_error(*cmd) && resolve_rows(projects.rows(), cmd.project_identifier.unwrap()@)
            == Resolution::Found(project@) && mapped_repository(projects.rows(), project@) is None),
        r matches Ok(added) ==> ({
            &&& add_tags_parse(*cmd)
            &&& !is_usage_error(*cmd)
            &&& resolve_rows(projects.rows(), cmd.project_identifier.unwrap()@) == Resolution::Found(
                added.project@,
            )
            &&& mapped_repository(projects.rows(), added.project@) is Some
            &&& add_scaffolds(*cmd) ==> added.handoff is Created
            &&& !add_scaffolds(*cmd) ==> added.handoff is NotLinked
            &&& !has_explicit_title(*cmd) ==> !added.title_normalized
        }),
        r matches Err(AddPendingWorkError::WriteStore { diagnostics, source: _ }) ==> (
        !is_usage_error(*cmd) && resolve_rows(projects.rows(), cmd.project_identifier.unwrap()@)
            == Resolution::Found(diagnostics.project@) && (!has_explicit_title(*cmd)
            ==> !diagnostics.title_normalized)),
        r matches Err(AddPendingWorkError::HandoffAfterPendingWork { pending_work_identifier: _, diagnostics, source: _ }) ==> (
        add_scaffolds(*cmd) && resolve_rows(projects.rows(), cmd.project_identifier.unwrap()@)
            == Resolution::Found(diagnostics.project@)),
        r matches Err(AddPendingWorkError::HandoffPreflight(_)) ==> add_scaffolds(*cmd) || cmd.source matches Some(
            AddPendingWorkSource::NewestHandoff,
        ),
        !(r matches Err(AddPendingWorkError::InvalidSection { .. })),
{
    let tags = match parse_tags(&cmd.tags) {
        Ok(tags) => tags,
        Err(e) => return Err(e),
    };
    let prereq = if cmd.prerequisites.len() == 0 {
        None
    } else {
        match validate_and_merge(None, &cmd.prerequisites, store, projects) {
            Ok(merged) => Some(merged),
            Err(e) => return Err(map_prerequisite_error(e)),
        }
    };
    let prepared = match prepare_source(cmd, store, projects, titles) {
        Ok(prepared) => prepared,
        Err(e) => return Err(e),
    };
    let created = match &cmd.date {
        Some(date) => date.clone(),
        None => clock.today(),
    };
    let wants_handoff = match &tags {
        Some(names) => contains_name(names, "handoff"),
        None => false,
    };
    let scaffold = if !prepared.newest_handoff && wants_handoff {
        match preflight_scaffold(
            store,
            prepared.repository.as_str(),
            prepared.project.as_str(),
            prepared.title.as_str(),
            created.as_str(),
        ) {
            Ok(scaffold) => Some(scaffold),
            Err(e) => return Err(AddPendingWorkError::HandoffPreflight(e)),
        }
    } else {
        None
    };
    let section = match cmd.section {
        Some(section) => Some(section.as_str().to_owned()),
        None => None,
    };
    let item = NewItem {
        prompt: prepared.prompt,
        title: Some(prepared.title),
        created,
        section,
        prereq,
        effort: cmd.effort,
        tags,
    };
    let record = match store.create_item(prepared.project.as_str(), item) {
        Ok(record) => record,
        Err(failure) => return Err(
            AddPendingWorkError::WriteStore {
                diagnostics: AddPendingWorkDiagnostics {
                    project: prepared.project,
                    created_section: failure.created_section,
                    title_normalized: prepared.title_normalized,
                },
                source: failure.source,
            },
        ),
    };
    let handoff = match scaffold {
        Some(scaffold) => match commit_scaffold(store, scaffold, record.id.as_str()) {
            Ok(handoff) => handoff,
            Err(source) => return Err(
                AddPendingWorkError::HandoffAfterPendingWork {
                    pending_work_identifier: record.id,
                    diagnostics: AddPendingWorkDiagnostics {
                        project: prepared.project,
                        created_section: record.created_section,
                        title_normalized: prepared.title_normalized,
                    },
                    source,
                },
            ),
        },
        None => HandoffMutationOk::NotLinked,
    };
    Ok(added_item(prepared.project.as_str(), record, prepared.title_normalized, handoff))
}

/// The message an add failure is reported with, given the message of the adapter failure
/// a write failure carries.
pub open spec fn add_message<E>(e: AddPendingWorkError<E>, write_message: Seq<char>) -> Seq<char> {
    match e {
        AddPendingWorkError::Usage => "Use: pwf add <project> \"<prompt>\""@,
        AddPendingWorkError::ProjectResolution(r) => resolution_message(r),
        AddPendingWorkError::ProjectHasNoDirectorySource { project } => "Project '"@ + project@
            + "' has no directory source; update the managed project record."@,
        AddPendingWorkError::InvalidSection { value } => "Unknown --section value '"@ + value@
            + "'. Use one of: future, human, low-prio."@,
        AddPendingWorkError::InvalidTag { raw } => "Invalid --tag value "@ + debug_quoted_of(raw@)
            + "; use lowercase/uppercase ASCII letters, digits, '_' or '-', without leading, trailing, or repeated separators."@,
        AddPendingWorkError::InvalidPrerequisiteId { raw } => "Invalid --prereq id: "@ + raw@
            + "."@,
        AddPendingWorkError::MissingPrerequisiteId => "--prereq requires an id."@,
        AddPendingWorkError::UnknownPrerequisiteIds { ids } => "Unknown --prereq id(s): "@
            + join_with(string_views(ids@), ", "@) + "."@,
        AddPendingWorkError::HandoffPreflight(h) => write_message,
        AddPendingWorkError::WriteStore { .. } => write_message,
        AddPendingWorkError::HandoffAfterPendingWork { pending_work_identifier, .. } =>
            pending_work_identifier@ + " was mutated, but its handoff was not: "@ + write_message,
    }
}

/// Whether `r` is the message of `e`: the adapter failure's own message for a write failure.
pub open spec fn add_reports<E: std::fmt::Display>(e: &AddPendingWorkError<E>, r: Seq<char>) -> bool {
    match e {
        AddPendingWorkError::HandoffPreflight(h) => handoff_reports(h, r),
        AddPendingWorkError::WriteStore { source, .. } => displays(source, r),
        AddPendingWorkError::HandoffAfterPendingWork { source, .. } => exists|m: Seq<char>|
            commit_reports(source, m) && r == add_message(*e, m),
        _ => r == add_message(*e, Seq::empty()),
    }
}

impl<E: std::fmt::Display> AddPendingWorkError<E> {
    /// The message this failure is reported with.
    pub fn message(&self) -> (r: String)
        ensures
            add_reports(self, r@),
    {
        match self {
            AddPendingWorkError::Usage => "Use: pwf add <project> \"<prompt>\"".to_owned(),
            AddPendingWorkError::ProjectResolution(e) => e.message(),
            AddPendingWorkError::ProjectHasNoDirectorySource { project } => {
                let a = concat("Project '", project.as_str());
                concat(a.as_str(), "' has no directory source; update the managed project record.")
            },
            AddPendingWorkError::InvalidSection { value } => {
                let a = concat("Unknown --section value '", value.as_str());
                concat(a.as_str(), "'. Use one of: future, human, low-prio.")
            },
            AddPendingWorkError::InvalidTag { raw } => {
                let quoted = debug_quoted(raw.as_str());
                let a = concat("Invalid --tag value ", quoted.as_str());
                concat(
                    a.as_str(),
                    "; use lowercase/uppercase ASCII letters, digits, '_' or '-', without leading, trailing, or repeated separators.",
                )
            },
            AddPendingWorkError::InvalidPrerequisiteId { raw } => {
                let a = concat("Invalid --prereq id: ", raw.as_str());
                concat(a.as_str(), ".")
            },
            AddPendingWorkError::MissingPrerequisiteId => "--prereq requires an id.".to_owned(),
            AddPendingWorkError::UnknownPrerequisiteIds { ids } => {
                let names = join(ids, ", ");
                let a = concat("Unknown --prereq id(s): ", names.as_str());
                concat(a.as_str(), ".")
            },
            AddPendingWorkError::HandoffPreflight(h) => h.message(),
            AddPendingWorkError::WriteStore { source, .. } => display_text(source),
            AddPendingWorkError::HandoffAfterPendingWork { pending_work_identifier, source, .. } => {
                let m = source.commit_message();
                let a = concat(pending_work_identifier.as_str(), " was mutated, but its handoff was not: ");
                concat(a.as_str(), m.as_str())
            },
        }
    }
}

} // verus!
