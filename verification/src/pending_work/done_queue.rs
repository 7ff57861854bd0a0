//! Decides how closing one item rotates its project's done queue.
//!
//! Closing an item checks its open index link off, evicts the oldest done links of its
//! section beyond that section's cap, and asks for legacy `Futuro` headers to be renamed.
use vstd::prelude::*;
use vstd::relations::{sorted_by, total_ordering};

use crate::pending_work::section::{alias, section_alias};
use crate::ports::{IndexEntry, IndexEntryState, IndexSection};
use crate::text::{
    chars_eq, chars_of, compare_chars, eq_ignore_case, lemma_lt_asymmetric,
    lemma_lt_irreflexive, lemma_lt_total, lemma_lt_transitive, seq_le, seq_lt, str_eq,
    str_eq_ignore_case, string_of, to_lowercase, trim, trimmed, unicode_lowercase,
};

verus! {

/// Done links sort by completion date, then by identifier.
pub open spec fn key_leq(a: (Seq<char>, Seq<char>), b: (Seq<char>, Seq<char>)) -> bool {
    seq_lt(a.0, b.0) || (a.0 == b.0 && seq_le(a.1, b.1))
}

pub open spec fn key_order() -> spec_fn((Seq<char>, Seq<char>), (Seq<char>, Seq<char>)) -> bool {
    |a: (Seq<char>, Seq<char>), b: (Seq<char>, Seq<char>)| key_leq(a, b)
}

/// The section a raw label counts against: `General` for an empty label, a known alias, or
/// the label trimmed and lowercased.
pub open spec fn canonical_section(label: Seq<char>) -> Seq<char> {
    let t = trim(label);
    if t.len() == 0 || t == "General"@ {
        "General"@
    } else {
        match section_alias(label) {
            Some(a) => a,
            None => unicode_lowercase(t),
        }
    }
}

/// How many done links a canonical section keeps.
pub open spec fn section_cap(section: Seq<char>) -> Option<nat> {
    if section == "General"@ {
        Some(6)
    } else if section == "Low-prio"@ {
        Some(3)
    } else if section == "Future"@ {
        Some(3)
    } else if section == "Human"@ {
        Some(3)
    } else {
        None
    }
}

/// `(completed, id)` of each done link whose section is `section`, in index order.
pub open spec fn done_keys(entries: Seq<IndexEntry>, section: Seq<char>) -> Seq<
    (Seq<char>, Seq<char>),
>
    decreases entries.len(),
{
    if entries.len() == 0 {
        seq![]
    } else {
        let previous = done_keys(entries.drop_last(), section);
        let entry = entries.last();
        match entry.state {
            IndexEntryState::Done(completed) => {
                if canonical_section(entry.section@) == section {
                    previous.push((completed@, entry.id@))
                } else {
                    previous
                }
            },
            IndexEntryState::Open => previous,
        }
    }
}

/// The identifiers evicted when `id`, open in `target_section`, is checked off on `completed`:
/// the oldest done links of the section, by completion date then identifier, beyond its cap.
pub open spec fn evicted_ids(
    entries: Seq<IndexEntry>,
    target_section: Seq<char>,
    id: Seq<char>,
    completed: Seq<char>,
) -> Seq<Seq<char>> {
    let section = canonical_section(target_section);
    match section_cap(section) {
        None => seq![],
        Some(cap) => {
            let done = done_keys(entries, section).push((completed, id));
            if done.len() <= cap {
                seq![]
            } else {
                done.sort_by(key_order()).take(done.len() - cap).map_values(
                    |k: (Seq<char>, Seq<char>)| k.1,
                )
            }
        },
    }
}

/// A legacy `Futuro` header, compared after trimming and ignoring ASCII case.
pub open spec fn is_futuro(label: Seq<char>) -> bool {
    eq_ignore_case(trim(label), "futuro"@)
}

pub open spec fn is_open_link(entry: IndexEntry, id: Seq<char>) -> bool {
    entry.id@ == id && entry.state == IndexEntryState::Open
}

/// What closing an item does to its project's index.
#[derive(Debug, Clone, PartialEq, Eq)]
pub struct CloseDecisions {
    /// Identifiers of the done links to delete, oldest first.
    pub evicted_ids: Vec<String>,
    /// Whether a legacy `Futuro` header must be renamed to `Future`.
    pub normalize_futuro_header: bool,
    /// Whether the item's open link is checked off.
    pub mark_target: bool,
}

// ---------------------------------------------------------------------------------------
pub proof fn lemma_key_order_total()
    ensures
        total_ordering(key_order()),
{
    let r = key_order();
    assert forall|x: (Seq<char>, Seq<char>)| #[trigger] r(x, x) by {}
    assert forall|x: (Seq<char>, Seq<char>), y: (Seq<char>, Seq<char>)|
        #[trigger] r(x, y) && #[trigger] r(y, x) implies x == y by {
        lemma_lt_asymmetric(x.0, y.0);
        lemma_lt_irreflexive(x.0);
        lemma_lt_asymmetric(x.1, y.1);
        lemma_lt_irreflexive(x.1);
    }
    assert forall|x: (Seq<char>, Seq<char>), y: (Seq<char>, Seq<char>), z: (Seq<char>, Seq<char>)|
        #[trigger] r(x, y) && #[trigger] r(y, z) implies r(x, z) by {
        if seq_lt(x.0, y.0) && seq_lt(y.0, z.0) {
            lemma_lt_transitive(x.0, y.0, z.0);
        }
        if x.0 == y.0 && y.0 == z.0 && seq_lt(x.1, y.1) && seq_lt(y.1, z.1) {
            lemma_lt_transitive(x.1, y.1, z.1);
        }
    }
    assert forall|x: (Seq<char>, Seq<char>), y: (Seq<char>, Seq<char>)|
        #[trigger] r(x, y) || #[trigger] r(y, x) by {
        lemma_lt_total(x.0, y.0);
        lemma_lt_total(x.1, y.1);
    }
}

pub open spec fn key_view(k: (Vec<char>, Vec<char>)) -> (Seq<char>, Seq<char>) {
    (k.0@, k.1@)
}

pub open spec fn keys_view(v: Seq<(Vec<char>, Vec<char>)>) -> Seq<(Seq<char>, Seq<char>)> {
    v.map_values(|k: (Vec<char>, Vec<char>)| key_view(k))
}

fn key_le(a: &(Vec<char>, Vec<char>), b: &(Vec<char>, Vec<char>)) -> (r: bool)
    ensures
        r == key_leq(key_view(*a), key_view(*b)),
{
    let c = compare_chars(&a.0, &b.0);
    if c < 0 {
        true
    } else if c > 0 {
        proof {
            lemma_lt_asymmetric(b.0@, a.0@);
        }
        false
    } else {
        compare_chars(&a.1, &b.1) <= 0
    }
}

/// Inserts `k` after every key not greater than it.
fn insert_sorted(keys: &mut Vec<(Vec<char>, Vec<char>)>, k: (Vec<char>, Vec<char>))
    requires
        sorted_by(keys_view(old(keys)@), key_order()),
    ensures
        sorted_by(keys_view(final(keys)@), key_order()),
        keys_view(final(keys)@).to_multiset() == keys_view(old(keys)@).to_multiset().insert(
            key_view(k),
        ),
        final(keys)@.len() == old(keys)@.len() + 1,
{
    proof {
        lemma_key_order_total();
    }
    let ghost old_view = keys_view(keys@);
    let ghost kv = key_view(k);
    let mut p: usize = 0;
    while p < keys.len() && key_le(&keys[p], &k)
        invariant
            p <= keys.len(),
            old_view == keys_view(keys@),
            kv == key_view(k),
            forall|j: int| 0 <= j < p ==> key_leq(#[trigger] old_view[j], kv),
        decreases keys.len() - p,
    {
        p = p + 1;
    }
    proof {
        if p < keys.len() {
            assert(!key_leq(old_view[p as int], kv));
            assert(key_order()(old_view[p as int], kv) || key_order()(kv, old_view[p as int]));
        }
    }
    keys.insert(p, k);
    proof {
        let nv = keys_view(keys@);
        assert(nv =~= old_view.insert(p as int, kv));
        let r = key_order();
        assert forall|i: int, j: int| 0 <= i < j < nv.len() implies #[trigger] r(nv[i], nv[j]) by {
            if j < p {
                assert(r(old_view[i], old_view[j]));
            } else if j == p {
                assert(key_leq(old_view[i], kv));
            } else if i < p {
                assert(r(old_view[i], old_view[j - 1]));
            } else if i == p {
                if j - 1 > p {
                    assert(r(old_view[p as int], old_view[j - 1]));
                }
                assert(r(kv, old_view[p as int]));
                assert(r(kv, old_view[j - 1]));
            } else {
                assert(r(old_view[i - 1], old_view[j - 1]));
            }
        }
        vstd::seq_lib::to_multiset_insert(old_view, p as int, kv);
    }
}

/// The canonical section a raw label counts against.
fn canonical_section_of(label: &str) -> (r: String)
    ensures
        r@ == canonical_section(label@),
{
    let raw = chars_of(label);
    let t = trimmed(&raw);
    let general = chars_of("General");
    if t.len() == 0 || chars_eq(&t, &general) {
        return "General".to_owned();
    }
    match alias(label) {
        Some(a) => a.to_owned(),
        None => {
            let ts = string_of(&t, 0, t.len());
            proof {
                assert(t@.subrange(0, t.len() as int) =~= t@);
            }
            to_lowercase(ts.as_str())
        },
    }
}

/// How many done links the canonical `section` keeps.
pub fn section_cap_of(section: &str) -> (r: Option<usize>)
    ensures
        r matches Some(c) ==> section_cap(section@) == Some(c as nat),
        r is None ==> section_cap(section@) is None,
{
    if str_eq(section, "General") {
        Some(6)
    } else if str_eq(section, "Low-prio") {
        Some(3)
    } else if str_eq(section, "Future") {
        Some(3)
    } else if str_eq(section, "Human") {
        Some(3)
    } else {
        None
    }
}

/// Whether `label` is a legacy `Futuro` header.
pub fn is_futuro_label(label: &str) -> (r: bool)
    ensures
        r == is_futuro(label@),
{
    let raw = chars_of(label);
    let t = trimmed(&raw);
    let f = chars_of("futuro");
    crate::text::chars_eq_ignore_case(&t, &f)
}

/// The done links evicted when `id`, open in `target_section`, is checked off on `completed`.
pub fn evict_beyond_cap(
    entries: &Vec<IndexEntry>,
    target_section: &str,
    id: &str,
    completed: &str,
) -> (r: Vec<String>)
    ensures
        r.deep_view() == evicted_ids(entries@, target_section@, id@, completed@),
{
    let section = canonical_section_of(target_section);
    let cap = match section_cap_of(section.as_str()) {
        Some(c) => c,
        None => {
            let r: Vec<String> = Vec::new();
            assert(r.deep_view() =~= Seq::<Seq<char>>::empty());
            return r;
        },
    };
    proof {
        lemma_key_order_total();
    }
    let mut keys: Vec<(Vec<char>, Vec<char>)> = Vec::new();
    proof {
        assert(keys_view(keys@) =~= Seq::<(Seq<char>, Seq<char>)>::empty());
        assert(entries@.subrange(0, 0) =~= Seq::<IndexEntry>::empty());
    }
    let mut i: usize = 0;
    while i < entries.len()
        invariant
            i <= entries.len(),
            sorted_by(keys_view(keys@), key_order()),
            keys_view(keys@).to_multiset() == done_keys(
                entries@.subrange(0, i as int),
                section@,
            ).to_multiset(),
        decreases entries.len() - i,
    {
        let entry = &entries[i];
        let ghost prefix = entries@.subrange(0, i + 1);
        proof {
            assert(prefix.drop_last() =~= entries@.subrange(0, i as int));
            assert(prefix.last() == entries@[i as int]);
        }
        let ghost before = keys_view(keys@);
        match &entry.state {
            IndexEntryState::Done(done_on) => {
                let entry_section = canonical_section_of(entry.section.as_str());
                if str_eq(entry_section.as_str(), section.as_str()) {
                    let key = (chars_of(done_on.as_str()), chars_of(entry.id.as_str()));
                    insert_sorted(&mut keys, key);
                    proof {
                        let previous = done_keys(entries@.subrange(0, i as int), section@);
                        assert(done_keys(prefix, section@) == previous.push(
                            (done_on@, entry.id@),
                        ));
                        vstd::seq_lib::to_multiset_build(previous, (done_on@, entry.id@));
                    }
                } else {
                    assert(done_keys(prefix, section@) == done_keys(
                        entries@.subrange(0, i as int),
                        section@,
                    ));
                }
            },
            IndexEntryState::Open => {
                assert(done_keys(prefix, section@) == done_keys(
                    entries@.subrange(0, i as int),
                    section@,
                ));
            },
        }
        i = i + 1;
    }
    assert(entries@.subrange(0, entries.len() as int) =~= entries@);
    insert_sorted(&mut keys, (chars_of(completed), chars_of(id)));
    let ghost done = done_keys(entries@, section@).push((completed@, id@));
    proof {
        vstd::seq_lib::to_multiset_build(done_keys(entries@, section@), (completed@, id@));
        vstd::seq_lib::to_multiset_len(done);
        vstd::seq_lib::to_multiset_len(keys_view(keys@));
    }
    let n = keys.len();
    if n <= cap {
        let r: Vec<String> = Vec::new();
        assert(r.deep_view() =~= Seq::<Seq<char>>::empty());
        return r;
    }
    proof {
        done.lemma_sort_by_ensures(key_order());
        vstd::seq_lib::lemma_sorted_unique(keys_view(keys@), done.sort_by(key_order()), key_order());
    }
    let evict_count = n - cap;
    let mut r: Vec<String> = Vec::new();
    let mut j: usize = 0;
    while j < evict_count
        invariant
            j <= evict_count <= keys.len(),
            r@.len() == j,
            forall|m: int| 0 <= m < j ==> (#[trigger] r@[m])@ == keys_view(keys@)[m].1,
        decreases evict_count - j,
    {
        let s = string_of(&keys[j].1, 0, keys[j].1.len());
        proof {
            assert(keys[j as int].1@.subrange(0, keys[j as int].1.len() as int) =~= keys[j as int].1@);
        }
        r.push(s);
        j = j + 1;
    }
    assert(r.deep_view() =~= keys_view(keys@).take(evict_count as int).map_values(
        |k: (Seq<char>, Seq<char>)| k.1,
    ));
    r
}

/// Decides the index mutations of closing `id` on `completed`.
pub fn close_decisions(
    entries: &Vec<IndexEntry>,
    sections: &Vec<IndexSection>,
    id: &str,
    completed: &str,
) -> (r: CloseDecisions)
    ensures
        r.normalize_futuro_header == exists|k: int|
            0 <= k < sections@.len() && is_futuro(#[trigger] sections@[k].label@),
        r.mark_target == exists|k: int| 0 <= k < entries@.len() && is_open_link(#[trigger] entries@[k], id@),
        !r.mark_target ==> r.evicted_ids@.len() == 0,
        r.mark_target ==> exists|k: int|
            0 <= k < entries@.len() && is_open_link(#[trigger] entries@[k], id@) && (forall|m: int|
                0 <= m < k ==> !is_open_link(#[trigger] entries@[m], id@))
                && r.evicted_ids.deep_view() == evicted_ids(
                entries@,
                entries@[k].section@,
                id@,
                completed@,
            ),
{
    let mut normalize = false;
    let mut s: usize = 0;
    while s < sections.len()
        invariant
            s <= sections.len(),
            normalize == exists|k: int| 0 <= k < s && is_futuro(#[trigger] sections@[k].label@),
        decreases sections.len() - s,
    {
        if is_futuro_label(sections[s].label.as_str()) {
            normalize = true;
        }
        s = s + 1;
    }
    let mut t: usize = 0;
    while t < entries.len()
        invariant
            t <= entries.len(),
            normalize == exists|k: int|
                0 <= k < sections@.len() && is_futuro(#[trigger] sections@[k].label@),
            forall|m: int| 0 <= m < t ==> !is_open_link(#[trigger] entries@[m], id@),
        decreases entries.len() - t,
    {
        let entry = &entries[t];
        let open = match &entry.state {
            IndexEntryState::Open => true,
            IndexEntryState::Done(_) => false,
        };
        if open && str_eq(entry.id.as_str(), id) {
            let evicted = evict_beyond_cap(entries, entry.section.as_str(), id, completed);
            return CloseDecisions {
                evicted_ids: evicted,
                normalize_futuro_header: normalize,
                mark_target: true,
            };
        }
        t = t + 1;
    }
    CloseDecisions { evicted_ids: Vec::new(), normalize_futuro_header: normalize, mark_target: false }
}

/// The done links a close ranks for eviction: the section's done links and the closed
/// one, oldest first.
pub open spec fn ranked_done(
    entries: Seq<IndexEntry>,
    target_section: Seq<char>,
    id: Seq<char>,
    completed: Seq<char>,
) -> Seq<(Seq<char>, Seq<char>)> {
    done_keys(entries, canonical_section(target_section)).push((completed, id)).sort_by(key_order())
}

/// A close keeps the newest done links of a capped section: when the section's done links,
/// the closed one included, exceed its cap, exactly the excess is evicted, and every evicted
/// link is older (by completion date, then identifier) than every link kept; otherwise
/// nothing is evicted. The ranking holds exactly the section's done links and the closed one.
pub proof fn lemma_eviction_keeps_the_newest(
    entries: Seq<IndexEntry>,
    target_section: Seq<char>,
    id: Seq<char>,
    completed: Seq<char>,
)
    requires
        section_cap(canonical_section(target_section)) is Some,
    ensures
        ({
            let cap = section_cap(canonical_section(target_section)).unwrap();
            let done = done_keys(entries, canonical_section(target_section)).push((completed, id));
            let ranked = ranked_done(entries, target_section, id, completed);
            let evicted = evicted_ids(entries, target_section, id, completed);
            &&& ranked.to_multiset() == done.to_multiset()
            &&& ranked.len() == done.len()
            &&& evicted.len() == (if done.len() > cap {
                done.len() - cap
            } else {
                0
            })
            &&& forall|i: int| 0 <= i < evicted.len() ==> #[trigger] evicted[i] == ranked[i].1
            &&& forall|i: int, j: int|
                0 <= i < evicted.len() && evicted.len() <= j < ranked.len() ==> key_leq(
                    #[trigger] ranked[i],
                    #[trigger] ranked[j],
                )
        }),
{
    let section = canonical_section(target_section);
    let done = done_keys(entries, section).push((completed, id));
    lemma_key_order_total();
    done.lemma_sort_by_ensures(key_order());
    let ranked = done.sort_by(key_order());
    vstd::seq_lib::to_multiset_len(done);
    vstd::seq_lib::to_multiset_len(ranked);
    assert forall|i: int, j: int| 0 <= i < j < ranked.len() implies key_leq(
        #[trigger] ranked[i],
        #[trigger] ranked[j],
    ) by {
        assert(key_order()(ranked[i], ranked[j]));
    }
}

/// What a close evicts, section by section: `General` keeps six done links, `Low-prio`,
/// `Future` and `Human` keep three each, and any other section keeps them all. Counting the
/// closed item, exactly the done links beyond that number are evicted.
pub proof fn lemma_section_caps(
    entries: Seq<IndexEntry>,
    target_section: Seq<char>,
    id: Seq<char>,
    completed: Seq<char>,
)
    ensures
        ({
            let section = canonical_section(target_section);
            let n = done_keys(entries, section).len() + 1;
            let evicted = evicted_ids(entries, target_section, id, completed).len();
            &&& section == "General"@ ==> evicted == (if n > 6 {
                n - 6
            } else {
                0
            })
            &&& (section == "Low-prio"@ || section == "Future"@ || section == "Human"@)
                ==> evicted == (if n > 3 {
                n - 3
            } else {
                0
            })
            &&& !(section == "General"@ || section == "Low-prio"@ || section == "Future"@
                || section == "Human"@) ==> evicted == 0
        }),
{
    reveal_strlit("General");
    reveal_strlit("Low-prio");
    reveal_strlit("Future");
    reveal_strlit("Human");
    let section = canonical_section(target_section);
    assert("General"@.len() == 7 && "Low-prio"@.len() == 8 && "Future"@.len() == 6
        && "Human"@.len() == 5);
    if section == "Low-prio"@ || section == "Future"@ || section == "Human"@ {
        assert(section != "General"@);
        assert(section_cap(section) == Some(3nat));
    }
    if section_cap(section) is Some {
        lemma_eviction_keeps_the_newest(entries, target_section, id, completed);
    }
}

} // verus!
