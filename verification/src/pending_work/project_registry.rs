//! Routes managed-project identifiers, work-item ids and repository paths to projects.
use vstd::prelude::*;

use crate::text::{
    ascii_lower, chars_eq, chars_eq_ignore_case, chars_of, compare_chars, eq_ignore_case,
    lemma_lt_asymmetric, lemma_lt_irreflexive, lemma_lt_transitive, lower_all, seq_lt,
    string_of,
};

verus! {

/// Repository and work-item prefix configured for one managed project.
#[derive(Debug, Clone, PartialEq, Eq)]
pub struct ProjectEntry {
    pub repository: Option<String>,
    pub prefix: Option<String>,
}

/// Reports that no project or several projects matched a managed-project lookup.
#[derive(Debug, Clone, PartialEq, Eq)]
pub enum ProjectResolutionError {
    /// No configured project matched the supplied identifier.
    Unknown {
        /// Identifier supplied by the caller.
        identifier: String,
        /// Configured project names in name order.
        known: Vec<String>,
    },
    /// Several configured projects matched the first non-empty lookup tier.
    Ambiguous {
        /// Identifier supplied by the caller.
        identifier: String,
        /// Project names matched by that tier, in name order.
        matches: Vec<String>,
    },
}

/// Abstract outcome of a project lookup.
pub enum Resolution {
    Found(Seq<char>),
    Unknown(Seq<char>, Seq<Seq<char>>),
    Ambiguous(Seq<char>, Seq<Seq<char>>),
}

/// A managed project's name and repository.
pub type ProjectRoute = (String, Option<String>);

/// One routing row: project name, repository and prefix.
pub type Row = (Seq<char>, Option<Seq<char>>, Option<Seq<char>>);

/// Routes managed-project identifiers, work-item ids and repository paths, keeping one row
/// per project name in name order.
#[derive(Debug)]
pub struct ProjectRegistry {
    entries: Vec<(String, ProjectEntry)>,
}

pub open spec fn opt_view(o: Option<String>) -> Option<Seq<char>> {
    match o {
        Some(s) => Some(s@),
        None => None,
    }
}

pub open spec fn row_of(e: (String, ProjectEntry)) -> Row {
    (e.0@, opt_view(e.1.repository), opt_view(e.1.prefix))
}

/// Names strictly ascending: each name occurs once, in name order.
pub open spec fn names_ascending(rows: Seq<Row>) -> bool {
    forall|i: int, j: int| 0 <= i < j < rows.len() ==> seq_lt(#[trigger] rows[i].0, #[trigger] rows[j].0)
}

pub open spec fn names(rows: Seq<Row>) -> Seq<Seq<char>> {
    rows.map_values(|r: Row| r.0)
}

/// The row of the last triple naming `name`, if any.
pub open spec fn last_row(input: Seq<Row>, name: Seq<char>) -> Option<Row>
    decreases input.len(),
{
    if input.len() == 0 {
        None
    } else if input.last().0 == name {
        Some(input.last())
    } else {
        last_row(input.drop_last(), name)
    }
}

/// The registry built from `(name, repository, prefix)` triples: one row per distinct name,
/// in name order, holding the values of the name's last triple.
pub open spec fn built_from(rows: Seq<Row>, input: Seq<Row>) -> bool {
    &&& names_ascending(rows)
    &&& forall|n: Seq<char>| #[trigger] last_row(input, n) is Some ==> exists|i: int|
        0 <= i < rows.len() && rows[i].0 == n
    &&& forall|i: int| 0 <= i < rows.len() ==> last_row(input, #[trigger] rows[i].0) == Some(rows[i])
}

/// Resolution tiers: an exact name, else a unique ASCII-case-insensitive name, else a unique
/// ASCII-case-insensitive prefix; the first non-empty tier with several matches is ambiguous.
pub open spec fn resolve_rows(rows: Seq<Row>, identifier: Seq<char>) -> Resolution {
    let exact = rows.filter(exact_name(identifier));
    let by_name = rows.filter(name_ignoring_case(identifier));
    let by_prefix = rows.filter(prefix_ignoring_case(identifier));
    if exact.len() > 0 {
        Resolution::Found(exact[0].0)
    } else if by_name.len() == 1 {
        Resolution::Found(by_name[0].0)
    } else if by_name.len() > 1 {
        Resolution::Ambiguous(identifier, names(by_name))
    } else if by_prefix.len() == 1 {
        Resolution::Found(by_prefix[0].0)
    } else if by_prefix.len() > 1 {
        Resolution::Ambiguous(identifier, names(by_prefix))
    } else {
        Resolution::Unknown(identifier, names(rows))
    }
}

pub open spec fn exact_name(identifier: Seq<char>) -> spec_fn(Row) -> bool {
    |r: Row| r.0 == identifier
}

pub open spec fn name_ignoring_case(identifier: Seq<char>) -> spec_fn(Row) -> bool {
    |r: Row| eq_ignore_case(r.0, identifier)
}

pub open spec fn prefix_ignoring_case(identifier: Seq<char>) -> spec_fn(Row) -> bool {
    |r: Row| r.2 is Some && eq_ignore_case(r.2->0, identifier)
}

pub open spec fn resolution_of(r: Result<&String, ProjectResolutionError>) -> Resolution {
    match r {
        Ok(name) => Resolution::Found(name@),
        Err(ProjectResolutionError::Unknown { identifier, known }) => Resolution::Unknown(
            identifier@,
            known.deep_view(),
        ),
        Err(ProjectResolutionError::Ambiguous { identifier, matches }) => Resolution::Ambiguous(
            identifier@,
            matches.deep_view(),
        ),
    }
}

/// A repository path compared with slashes unified, trailing slashes removed and ASCII case
/// folded.
pub open spec fn normalize_repository(s: Seq<char>) -> Seq<char> {
    ascii_lower(strip_trailing_slashes(s.map_values(|c: char| if c == '\\' { '/' } else { c })))
}

pub open spec fn strip_trailing_slashes(s: Seq<char>) -> Seq<char>
    decreases s.len(),
{
    if s.len() > 0 && s.last() == '/' {
        strip_trailing_slashes(s.drop_last())
    } else {
        s
    }
}

/// The text of a work-item id before its first `-`.
pub open spec fn id_prefix(id: Seq<char>) -> Seq<char>
    decreases id.len(),
{
    if id.len() == 0 || id[0] == '-' {
        seq![]
    } else {
        seq![id[0]] + id_prefix(id.drop_first())
    }
}

pub open spec fn row_named(rows: Seq<Row>, name: Seq<char>) -> Option<Row> {
    let found = rows.filter(exact_name(name));
    if found.len() > 0 {
        Some(found[0])
    } else {
        None
    }
}

/// The configured repository of the row named `name`.
pub open spec fn row_repository(rows: Seq<Row>, name: Seq<char>) -> Option<Seq<char>> {
    match row_named(rows, name) {
        Some(row) => row.1,
        None => None,
    }
}

/// The configured prefix of the row named `name`.
pub open spec fn row_prefix(rows: Seq<Row>, name: Seq<char>) -> Option<Seq<char>> {
    match row_named(rows, name) {
        Some(row) => row.2,
        None => None,
    }
}

/// `listed` holds the name and repository of each row, in order.
pub open spec fn lists_projects(listed: Seq<ProjectRoute>, rows: Seq<Row>) -> bool {
    &&& listed.len() == rows.len()
    &&& forall|i: int|
        0 <= i < listed.len() ==> (#[trigger] listed[i]).0@ == rows[i].0 && opt_view(listed[i].1)
            == rows[i].1
}

pub open spec fn repository_is(normalized: Seq<char>) -> spec_fn(Row) -> bool {
    |r: Row| r.1 is Some && normalize_repository(r.1->0) == normalized
}

pub open spec fn prefix_is(prefix: Seq<char>) -> spec_fn(Row) -> bool {
    |r: Row| r.2 == Some(prefix)
}

pub open spec fn opt_ref_view(o: Option<&String>) -> Option<Seq<char>> {
    match o {
        Some(s) => Some(s@),
        None => None,
    }
}

proof fn lemma_id_prefix_take(id: Seq<char>, k: int)
    requires
        0 <= k <= id.len(),
        forall|j: int| 0 <= j < k ==> id[j] != '-',
        k == id.len() || id[k] == '-',
    ensures
        id_prefix(id) == id.take(k),
    decreases k,
{
    if k == 0 {
        assert(id.take(0) =~= Seq::<char>::empty());
    } else {
        lemma_id_prefix_take(id.drop_first(), k - 1);
        assert(id.take(k) =~= seq![id[0]] + id.drop_first().take(k - 1));
    }
}

proof fn lemma_strip_slashes_take(s: Seq<char>, k: int)
    requires
        0 <= k <= s.len(),
        forall|i: int| k <= i < s.len() ==> #[trigger] s[i] == '/',
        k == 0 || s[k - 1] != '/',
    ensures
        strip_trailing_slashes(s) == s.take(k),
    decreases s.len() - k,
{
    if k == s.len() {
        assert(s.take(k) =~= s);
    } else {
        let t = s.drop_last();
        assert forall|i: int| k <= i < t.len() implies #[trigger] t[i] == '/' by {
            assert(t[i] == s[i]);
        }
        lemma_strip_slashes_take(t, k);
        assert(t.take(k) =~= s.take(k));
    }
}

/// `normalize_repository` of `s`.
fn normalized_repository(s: &str) -> (r: Vec<char>)
    ensures
        r@ == normalize_repository(s@),
{
    let v = chars_of(s);
    let ghost unified = s@.map_values(|c: char| if c == '\\' { '/' } else { c });
    let mut w: Vec<char> = Vec::new();
    let mut i: usize = 0;
    while i < v.len()
        invariant
            i <= v.len(),
            v@ == s@,
            unified == s@.map_values(|c: char| if c == '\\' { '/' } else { c }),
            w@ == unified.take(i as int),
        decreases v.len() - i,
    {
        let c = v[i];
        if c == '\\' {
            w.push('/');
        } else {
            w.push(c);
        }
        i = i + 1;
        assert(w@ =~= unified.take(i as int));
    }
    assert(unified.take(v.len() as int) =~= unified);
    let mut end: usize = w.len();
    while end > 0 && w[end - 1] == '/'
        invariant
            end <= w.len(),
            forall|j: int| end <= j < w.len() ==> #[trigger] w@[j] == '/',
        decreases end,
    {
        end = end - 1;
    }
    proof {
        lemma_strip_slashes_take(w@, end as int);
    }
    let stripped = crate::text::slice_chars(&w, 0, end);
    assert(stripped@ =~= w@.take(end as int));
    lower_all(&stripped)
}

/// The text of a work-item id before its first `-`.
pub fn id_prefix_of(id: &str) -> (r: String)
    ensures
        r@ == id_prefix(id@),
{
    let v = chars_of(id);
    let mut k: usize = 0;
    while k < v.len() && v[k] != '-'
        invariant
            k <= v.len(),
            forall|j: int| 0 <= j < k ==> v@[j] != '-',
        decreases v.len() - k,
    {
        k = k + 1;
    }
    proof {
        lemma_id_prefix_take(id@, k as int);
        assert(v@.subrange(0, k as int) =~= id_prefix(id@));
    }
    crate::text::string_of(&v, 0, k)
}

impl ProjectRegistry {
    /// The routing rows in name order.
    pub closed spec fn rows(&self) -> Seq<Row> {
        self.entries@.map_values(|e: (String, ProjectEntry)| row_of(e))
    }

    #[verifier::type_invariant]
    closed spec fn names_in_order(&self) -> bool {
        names_ascending(self.rows())
    }

    /// Resolves an exact name, a unique ASCII-case-insensitive name, or a unique
    /// ASCII-case-insensitive prefix; name matching stops before prefix matching when the
    /// name tier is non-empty.
    pub fn resolve(&self, identifier: &str) -> (r: Result<&String, ProjectResolutionError>)
        ensures
            resolution_of(r) == resolve_rows(self.rows(), identifier@),
    {
        let ident = chars_of(identifier);
        let ghost rows = self.rows();
        let mut i: usize = 0;
        while i < self.entries.len()
            invariant
                i <= self.entries.len(),
                rows == self.rows(),
                rows.len() == self.entries.len(),
                ident@ == identifier@,
                rows.take(i as int).filter(exact_name(identifier@)).len() == 0,
            decreases self.entries.len() - i,
        {
            let name = chars_of(self.entries[i].0.as_str());
            proof {
                rows.take(i as int).lemma_filter_push(rows[i as int], exact_name(identifier@));
                assert(rows.take(i + 1) =~= rows.take(i as int).push(rows[i as int]));
                assert(rows[i as int] == row_of(self.entries@[i as int]));
            }
            if chars_eq(&name, &ident) {
                proof {
                    lemma_filter_head(rows, exact_name(identifier@), i as int);
                }
                return Ok(&self.entries[i].0);
            }
            i = i + 1;
        }
        proof {
            assert(rows.take(rows.len() as int) =~= rows);
        }
        let (count, first, matches) = self.matching_names(&ident, false);
        if count == 1 {
            proof {
                assert(rows.filter(name_ignoring_case(identifier@))[0].0 == matches.deep_view()[0]);
            }
            return Ok(&self.entries[first].0);
        }
        if count > 1 {
            return Err(ProjectResolutionError::Ambiguous { identifier: identifier.to_owned(), matches });
        }
        let (count, first, matches) = self.matching_names(&ident, true);
        if count == 1 {
            proof {
                assert(rows.filter(prefix_ignoring_case(identifier@))[0].0 == matches.deep_view()[0]);
            }
            return Ok(&self.entries[first].0);
        }
        if count > 1 {
            return Err(ProjectResolutionError::Ambiguous { identifier: identifier.to_owned(), matches });
        }
        Err(ProjectResolutionError::Unknown { identifier: identifier.to_owned(), known: self.project_names() })
    }

    /// Names of the rows whose name (or, with `by_prefix`, whose prefix) equals `ident`
    /// ignoring ASCII case, with their count and the index of the first one.
    fn matching_names(&self, ident: &Vec<char>, by_prefix: bool) -> (r: (usize, usize, Vec<String>))
        ensures
            ({
                let pred = if by_prefix {
                    prefix_ignoring_case(ident@)
                } else {
                    name_ignoring_case(ident@)
                };
                let found = self.rows().filter(pred);
                &&& r.0 == found.len()
                &&& r.2.deep_view() == names(found)
                &&& r.0 > 0 ==> r.1 < self.rows().len() && self.rows()[r.1 as int].0 == found[0].0
                &&& r.0 > 0 ==> self.entries@[r.1 as int].0@ == found[0].0
            }),
    {
        let ghost rows = self.rows();
        let ghost pred = if by_prefix {
            prefix_ignoring_case(ident@)
        } else {
            name_ignoring_case(ident@)
        };
        let mut i: usize = 0;
        let mut count: usize = 0;
        let mut first: usize = 0;
        let mut matches: Vec<String> = Vec::new();
        proof {
            assert(rows.take(0) =~= Seq::<Row>::empty());
            reveal(Seq::filter);
            assert(matches.deep_view() =~= names(rows.take(0).filter(pred)));
        }
        while i < self.entries.len()
            invariant
                i <= self.entries.len(),
                rows == self.rows(),
                rows.len() == self.entries.len(),
                pred == (if by_prefix {
                    prefix_ignoring_case(ident@)
                } else {
                    name_ignoring_case(ident@)
                }),
                count == rows.take(i as int).filter(pred).len(),
                count <= i,
                matches.deep_view() == names(rows.take(i as int).filter(pred)),
                count > 0 ==> first < i && rows[first as int].0 == rows.take(i as int).filter(pred)[0].0,
            decreases self.entries.len() - i,
        {
            let entry = &self.entries[i];
            let hit = if by_prefix {
                match &entry.1.prefix {
                    Some(p) => {
                        let pc = chars_of(p.as_str());
                        chars_eq_ignore_case(&pc, ident)
                    },
                    None => false,
                }
            } else {
                let nc = chars_of(entry.0.as_str());
                chars_eq_ignore_case(&nc, ident)
            };
            proof {
                assert(rows[i as int] == row_of(self.entries@[i as int]));
                assert(hit == pred(rows[i as int]));
                rows.take(i as int).lemma_filter_push(rows[i as int], pred);
                assert(rows.take(i + 1) =~= rows.take(i as int).push(rows[i as int]));
            }
            if hit {
                if count == 0 {
                    first = i;
                }
                let ghost before = matches.deep_view();
                matches.push(entry.0.clone());
                proof {
                    assert(matches.deep_view() =~= before.push(rows[i as int].0));
                    let f = rows.take(i as int).filter(pred);
                    assert(names(f.push(rows[i as int])) =~= names(f).push(rows[i as int].0));
                }
                count = count + 1;
            }
            i = i + 1;
        }
        proof {
            assert(rows.take(rows.len() as int) =~= rows);
        }
        (count, first, matches)
    }

    /// Resolves the project whose configured repository matches `repository` after slash
    /// unification, trailing-separator removal and ASCII case folding; with several, the first
    /// in name order.
    pub fn project_for_repository(&self, repository: &str) -> (r: Result<&String, ProjectResolutionError>)
        ensures
            ({
                let found = self.rows().filter(repository_is(normalize_repository(repository@)));
                if found.len() > 0 {
                    resolution_of(r) == Resolution::Found(found[0].0)
                } else {
                    resolution_of(r) == Resolution::Unknown(repository@, names(self.rows()))
                }
            }),
    {
        let wanted = normalized_repository(repository);
        let ghost rows = self.rows();
        let ghost pred = repository_is(normalize_repository(repository@));
        let mut i: usize = 0;
        while i < self.entries.len()
            invariant
                i <= self.entries.len(),
                rows == self.rows(),
                rows.len() == self.entries.len(),
                wanted@ == normalize_repository(repository@),
                pred == repository_is(normalize_repository(repository@)),
                rows.take(i as int).filter(pred).len() == 0,
            decreases self.entries.len() - i,
        {
            let hit = match &self.entries[i].1.repository {
                Some(repo) => {
                    let n = normalized_repository(repo.as_str());
                    chars_eq(&n, &wanted)
                },
                None => false,
            };
            proof {
                assert(rows[i as int] == row_of(self.entries@[i as int]));
                assert(hit == pred(rows[i as int]));
                rows.take(i as int).lemma_filter_push(rows[i as int], pred);
                assert(rows.take(i + 1) =~= rows.take(i as int).push(rows[i as int]));
            }
            if hit {
                proof {
                    lemma_filter_head(rows, pred, i as int);
                }
                return Ok(&self.entries[i].0);
            }
            i = i + 1;
        }
        proof {
            assert(rows.take(rows.len() as int) =~= rows);
        }
        Err(ProjectResolutionError::Unknown { identifier: repository.to_owned(), known: self.project_names() })
    }

    /// Resolves the project owning the work-item `id` by the text before the id's first `-`,
    /// compared case-sensitively with the configured prefixes; the first in name order.
    pub fn project_for_id(&self, id: &str) -> (r: Option<&String>)
        ensures
            ({
                let found = self.rows().filter(prefix_is(id_prefix(id@)));
                &&& found.len() > 0 ==> opt_ref_view(r) == Some(found[0].0)
                &&& found.len() == 0 ==> r is None
            }),
    {
        let v = chars_of(id);
        let mut k: usize = 0;
        while k < v.len() && v[k] != '-'
            invariant
                k <= v.len(),
                forall|j: int| 0 <= j < k ==> v@[j] != '-',
            decreases v.len() - k,
        {
            k = k + 1;
        }
        proof {
            lemma_id_prefix_take(id@, k as int);
        }
        let prefix = crate::text::slice_chars(&v, 0, k);
        assert(prefix@ =~= id_prefix(id@));
        match self.first_with_prefix(&prefix) {
            Some(i) => Some(&self.entries[i].0),
            None => None,
        }
    }

    /// Index of the first row whose prefix is exactly `prefix`.
    fn first_with_prefix(&self, prefix: &Vec<char>) -> (r: Option<usize>)
        ensures
            ({
                let found = self.rows().filter(prefix_is(prefix@));
                &&& found.len() > 0 ==> (r matches Some(i) && i < self.rows().len() && self.rows()[i as int] == found[0])
                &&& found.len() == 0 ==> r is None
            }),
    {
        let ghost rows = self.rows();
        let ghost pred = prefix_is(prefix@);
        let mut i: usize = 0;
        while i < self.entries.len()
            invariant
                i <= self.entries.len(),
                rows == self.rows(),
                rows.len() == self.entries.len(),
                pred == prefix_is(prefix@),
                rows.take(i as int).filter(pred).len() == 0,
            decreases self.entries.len() - i,
        {
            let hit = match &self.entries[i].1.prefix {
                Some(p) => {
                    let pc = chars_of(p.as_str());
                    chars_eq(&pc, prefix)
                },
                None => false,
            };
            proof {
                assert(rows[i as int] == row_of(self.entries@[i as int]));
                assert(hit == pred(rows[i as int]));
                rows.take(i as int).lemma_filter_push(rows[i as int], pred);
                assert(rows.take(i + 1) =~= rows.take(i as int).push(rows[i as int]));
            }
            if hit {
                proof {
                    lemma_filter_head(rows, pred, i as int);
                }
                return Some(i);
            }
            i = i + 1;
        }
        proof {
            assert(rows.take(rows.len() as int) =~= rows);
        }
        None
    }

    /// Counts projects using `prefix`; a count above one makes item routing ambiguous.
    pub fn projects_with_prefix(&self, prefix: &str) -> (r: usize)
        ensures
            r == self.rows().filter(prefix_is(prefix@)).len(),
    {
        let pv = chars_of(prefix);
        let ghost rows = self.rows();
        let ghost pred = prefix_is(prefix@);
        let mut count: usize = 0;
        let mut i: usize = 0;
        proof {
            assert(rows.take(0) =~= Seq::<Row>::empty());
            reveal(Seq::filter);
        }
        while i < self.entries.len()
            invariant
                i <= self.entries.len(),
                rows == self.rows(),
                rows.len() == self.entries.len(),
                pv@ == prefix@,
                pred == prefix_is(prefix@),
                count == rows.take(i as int).filter(pred).len(),
                count <= i,
            decreases self.entries.len() - i,
        {
            let hit = match &self.entries[i].1.prefix {
                Some(p) => {
                    let pc = chars_of(p.as_str());
                    chars_eq(&pc, &pv)
                },
                None => false,
            };
            proof {
                assert(rows[i as int] == row_of(self.entries@[i as int]));
                assert(hit == pred(rows[i as int]));
                rows.take(i as int).lemma_filter_push(rows[i as int], pred);
                assert(rows.take(i + 1) =~= rows.take(i as int).push(rows[i as int]));
            }
            if hit {
                count = count + 1;
            }
            i = i + 1;
        }
        proof {
            assert(rows.take(rows.len() as int) =~= rows);
        }
        count
    }

    /// Index of the row named `project`.
    fn position_of(&self, project: &str) -> (r: Option<usize>)
        ensures
            ({
                let found = self.rows().filter(exact_name(project@));
                &&& found.len() > 0 ==> (r matches Some(i) && i < self.rows().len() && self.rows()[i as int] == found[0])
                &&& found.len() == 0 ==> r is None
            }),
    {
        let pv = chars_of(project);
        let ghost rows = self.rows();
        let ghost pred = exact_name(project@);
        let mut i: usize = 0;
        while i < self.entries.len()
            invariant
                i <= self.entries.len(),
                rows == self.rows(),
                rows.len() == self.entries.len(),
                pv@ == project@,
                pred == exact_name(project@),
                rows.take(i as int).filter(pred).len() == 0,
            decreases self.entries.len() - i,
        {
            let nc = chars_of(self.entries[i].0.as_str());
            let hit = chars_eq(&nc, &pv);
            proof {
                assert(rows[i as int] == row_of(self.entries@[i as int]));
                assert(hit == pred(rows[i as int]));
                rows.take(i as int).lemma_filter_push(rows[i as int], pred);
                assert(rows.take(i + 1) =~= rows.take(i as int).push(rows[i as int]));
            }
            if hit {
                proof {
                    lemma_filter_head(rows, pred, i as int);
                }
                return Some(i);
            }
            i = i + 1;
        }
        proof {
            assert(rows.take(rows.len() as int) =~= rows);
        }
        None
    }

    /// The configured repository of `project`, when the project and its repository exist.
    pub fn repo_for(&self, project: &str) -> (r: Option<&String>)
        ensures
            opt_ref_view(r) == row_repository(self.rows(), project@),
    {
        match self.position_of(project) {
            Some(i) => {
                assert(self.rows()[i as int] == row_of(self.entries@[i as int]));
                self.entries[i].1.repository.as_ref()
            },
            None => None,
        }
    }

    /// The configured work-item prefix of `project`, when the project and its prefix exist.
    pub fn prefix_for(&self, project: &str) -> (r: Option<&String>)
        ensures
            opt_ref_view(r) == row_prefix(self.rows(), project@),
    {
        match self.position_of(project) {
            Some(i) => {
                assert(self.rows()[i as int] == row_of(self.entries@[i as int]));
                self.entries[i].1.prefix.as_ref()
            },
            None => None,
        }
    }

    /// Managed projects and their repositories in name order.
    pub fn projects(&self) -> (listed: Vec<ProjectRoute>)
        ensures
            lists_projects(listed@, self.rows()),
    {
        let mut r: Vec<ProjectRoute> = Vec::new();
        let mut i: usize = 0;
        while i < self.entries.len()
            invariant
                i <= self.entries.len(),
                lists_projects(r@, self.rows().take(i as int)),
            decreases self.entries.len() - i,
        {
            let repo = match &self.entries[i].1.repository {
                Some(s) => Some(s.clone()),
                None => None,
            };
            r.push((self.entries[i].0.clone(), repo));
            proof {
                assert(self.rows()[i as int] == row_of(self.entries@[i as int]));
            }
            i = i + 1;
        }
        assert(self.rows().take(self.entries.len() as int) =~= self.rows());
        r
    }

    /// Configured project names in name order.
    pub fn project_names(&self) -> (r: Vec<String>)
        ensures
            r.deep_view() == names(self.rows()),
    {
        let mut r: Vec<String> = Vec::new();
        let mut i: usize = 0;
        while i < self.entries.len()
            invariant
                i <= self.entries.len(),
                r@.len() == i,
                forall|j: int| 0 <= j < i ==> (#[trigger] r@[j])@ == self.entries@[j].0@,
            decreases self.entries.len() - i,
        {
            r.push(self.entries[i].0.clone());
            i = i + 1;
        }
        assert(r.deep_view() =~= names(self.rows()));
        r
    }

    /// An empty registry.
    pub fn empty() -> (r: Self)
        ensures
            r.rows() == Seq::<Row>::empty(),
    {
        let r = ProjectRegistry { entries: Vec::new() };
        assert(r.rows() =~= Seq::<Row>::empty());
        r
    }

    /// Builds a registry from `(project, repository, uppercase prefix)` triples; a later
    /// triple for the same project replaces the earlier one.
    pub fn new(entries: Vec<(String, Option<String>, Option<String>)>) -> (r: Self)
        ensures
            built_from(r.rows(), triples_view(entries@)),
    {
        let ghost input = triples_view(entries@);
        let mut rows: Vec<(String, ProjectEntry)> = Vec::new();
        proof {
            assert(rows_view(rows@) =~= Seq::<Row>::empty());
            assert(input.take(0) =~= Seq::<Row>::empty());
        }
        let mut source = entries;
        let ghost mut done: int = 0;
        while source.len() > 0
            invariant
                0 <= done <= input.len(),
                done + source@.len() == input.len(),
                forall|m: int| 0 <= m < source@.len() ==> input[done + m] == triple_view(#[trigger] source@[m]),
                built_from(rows_view(rows@), input.take(done)),
            decreases source.len(),
        {
            let ghost first = source@[0];
            let ghost whole = source@;
            let (name, repository, prefix) = source.remove(0);
            let ghost item = (name@, opt_view(repository), opt_view(prefix));
            proof {
                assert(input[done] == triple_view(first));
                assert forall|m: int| 0 <= m < source@.len() implies input[done + 1 + m] == triple_view(#[trigger] source@[m]) by {
                    assert(source@[m] == whole[m + 1]);
                    assert(input[done + (m + 1)] == triple_view(whole[m + 1]));
                }
            }
            Self::upsert(&mut rows, name, ProjectEntry { repository, prefix }, Ghost(input.take(done)), Ghost(item));
            proof {
                assert(input.take(done + 1) =~= input.take(done).push(item));
                done = done + 1;
            }
        }
        proof {
            assert(input.take(done) =~= input);
        }
        ProjectRegistry { entries: rows }
    }

    fn upsert(
        rows: &mut Vec<(String, ProjectEntry)>,
        name: String,
        entry: ProjectEntry,
        Ghost(prior): Ghost<Seq<Row>>,
        Ghost(item): Ghost<Row>,
    )
        requires
            built_from(rows_view(old(rows)@), prior),
            item == (name@, opt_view(entry.repository), opt_view(entry.prefix)),
        ensures
            built_from(rows_view(final(rows)@), prior.push(item)),
    {
        let ghost before = rows_view(rows@);
        let key = chars_of(name.as_str());
        let mut p: usize = 0;
        let mut found = false;
        while p < rows.len()
            invariant_except_break
                !found,
            invariant
                p <= rows.len(),
                before == rows_view(rows@),
                key@ == name@,
                forall|j: int| 0 <= j < p ==> seq_lt(#[trigger] before[j].0, name@),
            ensures
                p <= rows.len(),
                found ==> p < rows.len() && before[p as int].0 == name@,
                !found ==> forall|j: int| 0 <= j < p ==> seq_lt(#[trigger] before[j].0, name@),
                !found ==> p == rows.len() || seq_lt(name@, before[p as int].0),
            decreases rows.len() - p,
        {
            let here = chars_of(rows[p].0.as_str());
            let c = compare_chars(&here, &key);
            if c == 0 {
                found = true;
                break;
            }
            if c > 0 {
                break;
            }
            p = p + 1;
        }
        if found {
            proof {
                lemma_replace_row(before, prior, item, p as int);
            }
            rows.set(p, (name, entry));
            assert(rows_view(rows@) =~= before.update(p as int, item));
        } else {
            proof {
                lemma_insert_row(before, prior, item, p as int);
            }
            rows.insert(p, (name, entry));
            assert(rows_view(rows@) =~= before.insert(p as int, item));
        }
    }
}

pub open spec fn triple_view(t: (String, Option<String>, Option<String>)) -> Row {
    (t.0@, opt_view(t.1), opt_view(t.2))
}

pub open spec fn triples_view(v: Seq<(String, Option<String>, Option<String>)>) -> Seq<Row> {
    v.map_values(|t: (String, Option<String>, Option<String>)| triple_view(t))
}

pub open spec fn rows_view(v: Seq<(String, ProjectEntry)>) -> Seq<Row> {
    v.map_values(|e: (String, ProjectEntry)| row_of(e))
}

/// The first element a filter keeps is the first element satisfying the predicate.
proof fn lemma_filter_head(s: Seq<Row>, pred: spec_fn(Row) -> bool, i: int)
    requires
        0 <= i < s.len(),
        pred(s[i]),
        s.take(i).filter(pred).len() == 0,
    ensures
        s.filter(pred).len() > 0,
        s.filter(pred)[0] == s[i],
{
    s.take(i).lemma_filter_push(s[i], pred);
    assert(s.take(i + 1) =~= s.take(i).push(s[i]));
    assert(s =~= s.take(i + 1) + s.skip(i + 1));
    Seq::filter_distributes_over_add(s.take(i + 1), s.skip(i + 1), pred);
}

proof fn lemma_ascending_distinct(rows: Seq<Row>, i: int, j: int)
    requires
        names_ascending(rows),
        0 <= i < rows.len(),
        0 <= j < rows.len(),
        i != j,
    ensures
        rows[i].0 != rows[j].0,
{
    if i < j {
        assert(seq_lt(rows[i].0, rows[j].0));
        lemma_lt_irreflexive(rows[i].0);
    } else {
        assert(seq_lt(rows[j].0, rows[i].0));
        lemma_lt_irreflexive(rows[j].0);
    }
}

proof fn lemma_last_row_push(prior: Seq<Row>, item: Row, n: Seq<char>)
    ensures
        last_row(prior.push(item), n) == if item.0 == n {
            Some(item)
        } else {
            last_row(prior, n)
        },
{
    assert(prior.push(item).drop_last() =~= prior);
}

proof fn lemma_replace_row(before: Seq<Row>, prior: Seq<Row>, item: Row, p: int)
    requires
        built_from(before, prior),
        0 <= p < before.len(),
        before[p].0 == item.0,
    ensures
        built_from(before.update(p, item), prior.push(item)),
{
    let after = before.update(p, item);
    let input = prior.push(item);
    assert forall|i: int, j: int| 0 <= i < j < after.len() implies seq_lt(
        #[trigger] after[i].0,
        #[trigger] after[j].0,
    ) by {
        assert(seq_lt(before[i].0, before[j].0));
    }
    assert forall|n: Seq<char>| #[trigger] last_row(input, n) is Some implies exists|i: int|
        0 <= i < after.len() && after[i].0 == n by {
        lemma_last_row_push(prior, item, n);
        if item.0 == n {
            assert(after[p].0 == n);
        } else {
            let i = choose|i: int| 0 <= i < before.len() && before[i].0 == n;
            assert(after[i].0 == n);
        }
    }
    assert forall|i: int| 0 <= i < after.len() implies last_row(input, #[trigger] after[i].0) == Some(
        after[i],
    ) by {
        lemma_last_row_push(prior, item, after[i].0);
        if i != p {
            lemma_ascending_distinct(before, i, p);
            assert(last_row(prior, before[i].0) == Some(before[i]));
        }
    }
}

proof fn lemma_insert_row(before: Seq<Row>, prior: Seq<Row>, item: Row, p: int)
    requires
        built_from(before, prior),
        0 <= p <= before.len(),
        forall|j: int| 0 <= j < p ==> seq_lt(#[trigger] before[j].0, item.0),
        p == before.len() || seq_lt(item.0, before[p].0),
    ensures
        built_from(before.insert(p, item), prior.push(item)),
{
    let after = before.insert(p, item);
    let input = prior.push(item);
    assert forall|j: int| p <= j < before.len() implies seq_lt(item.0, #[trigger] before[j].0) by {
        if j > p {
            assert(seq_lt(before[p].0, before[j].0));
            lemma_lt_transitive(item.0, before[p].0, before[j].0);
        }
    }
    assert forall|j: int| 0 <= j < before.len() implies #[trigger] before[j].0 != item.0 by {
        lemma_lt_irreflexive(item.0);
    }
    assert forall|i: int, j: int| 0 <= i < j < after.len() implies seq_lt(
        #[trigger] after[i].0,
        #[trigger] after[j].0,
    ) by {
        if j < p {
            assert(seq_lt(before[i].0, before[j].0));
        } else if j == p {
        } else if i < p {
            assert(seq_lt(before[i].0, item.0));
            lemma_lt_transitive(before[i].0, item.0, before[j - 1].0);
        } else if i == p {
        } else {
            assert(seq_lt(before[i - 1].0, before[j - 1].0));
        }
    }
    assert forall|n: Seq<char>| #[trigger] last_row(input, n) is Some implies exists|i: int|
        0 <= i < after.len() && after[i].0 == n by {
        lemma_last_row_push(prior, item, n);
        if item.0 == n {
            assert(after[p].0 == n);
        } else {
            let i = choose|i: int| 0 <= i < before.len() && before[i].0 == n;
            if i < p {
                assert(after[i].0 == n);
            } else {
                assert(after[i + 1].0 == n);
            }
        }
    }
    assert forall|i: int| 0 <= i < after.len() implies last_row(input, #[trigger] after[i].0) == Some(
        after[i],
    ) by {
        lemma_last_row_push(prior, item, after[i].0);
        if i < p {
            assert(after[i] == before[i]);
            assert(last_row(prior, before[i].0) == Some(before[i]));
        } else if i > p {
            assert(after[i] == before[i - 1]);
            assert(last_row(prior, before[i - 1].0) == Some(before[i - 1]));
        }
    }
}

/// The message a failed project lookup is reported with.
pub open spec fn resolution_message(e: ProjectResolutionError) -> Seq<char> {
    match e {
        ProjectResolutionError::Unknown { identifier, known } => "Unknown managed project identifier: "@
            + identifier@ + "\nManaged project identifiers: "@ + crate::text::join_with(
            crate::text::string_views(known@),
            ", "@,
        ),
        ProjectResolutionError::Ambiguous { identifier, matches } => "'"@ + identifier@
            + "' is ambiguous. Managed project identifiers matching it: "@ + crate::text::join_with(
            crate::text::string_views(matches@),
            ", "@,
        ) + "."@,
    }
}

impl ProjectResolutionError {
    /// The message this failure is reported with.
    pub fn message(&self) -> (r: String)
        ensures
            r@ == resolution_message(*self),
    {
        match self {
            ProjectResolutionError::Unknown { identifier, known } => {
                let a = crate::text::concat("Unknown managed project identifier: ", identifier.as_str());
                let b = crate::text::concat(a.as_str(), "\nManaged project identifiers: ");
                let names = crate::text::join(known, ", ");
                crate::text::concat(b.as_str(), names.as_str())
            },
            ProjectResolutionError::Ambiguous { identifier, matches } => {
                let a = crate::text::concat("'", identifier.as_str());
                let b = crate::text::concat(
                    a.as_str(),
                    "' is ambiguous. Managed project identifiers matching it: ",
                );
                let names = crate::text::join(matches, ", ");
                let c = crate::text::concat(b.as_str(), names.as_str());
                crate::text::concat(c.as_str(), ".")
            },
        }
    }
}

} // verus!
