use pwf_application::pending_work::done_queue::close_decisions;
use pwf_application::ports::{IndexEntry, IndexEntryState, IndexSection};

fn done(id: &str, date: &str, section: &str) -> IndexEntry {
    IndexEntry {
        id: id.to_string(),
        state: IndexEntryState::Done(date.to_string()),
        section: section.to_string(),
    }
}

fn open(id: &str, section: &str) -> IndexEntry {
    IndexEntry { id: id.to_string(), state: IndexEntryState::Open, section: section.to_string() }
}

fn section(label: &str) -> IndexSection {
    IndexSection { label: label.to_string() }
}

#[test]
fn cap_boundary_evicts_single_oldest_beyond_cap() {
    let mut entries: Vec<IndexEntry> = (1..=6)
        .map(|number| done(&format!("PWF-{number:04}"), &format!("2026-01-{number:02}"), ""))
        .collect();
    entries.push(open("PWF-0007", ""));

    let decisions = close_decisions(&entries, &Vec::new(), "PWF-0007", "2026-07-07");

    assert_eq!(decisions.evicted_ids, vec!["PWF-0001".to_string()]);
    assert!(decisions.mark_target);
}

#[test]
fn tied_completed_dates_break_by_ascending_id() {
    let entries = vec![
        done("PWF-0002", "2026-01-01", "Human"),
        done("PWF-0001", "2026-01-01", "Human"),
        done("PWF-0003", "2026-01-02", "Human"),
        open("PWF-0004", "Human"),
    ];

    let decisions = close_decisions(&entries, &Vec::new(), "PWF-0004", "2026-01-03");

    assert_eq!(decisions.evicted_ids, vec!["PWF-0001".to_string()]);
}

#[test]
fn missing_completed_date_sorts_before_any_dated_entry() {
    let entries = vec![
        done("PWF-0001", "", "Human"),
        done("PWF-0002", "2026-01-01", "Human"),
        done("PWF-0003", "2026-01-02", "Human"),
        open("PWF-0004", "Human"),
    ];

    let decisions = close_decisions(&entries, &Vec::new(), "PWF-0004", "2026-01-03");

    assert_eq!(decisions.evicted_ids, vec!["PWF-0001".to_string()]);
}

#[test]
fn section_without_a_cap_evicts_nothing() {
    let mut entries: Vec<IndexEntry> = (1..=9)
        .map(|number| {
            done(&format!("PWF-{number:04}"), &format!("2026-01-{number:02}"), "Someday")
        })
        .collect();
    entries.push(open("PWF-0010", "Someday"));

    let decisions = close_decisions(&entries, &Vec::new(), "PWF-0010", "2026-07-07");

    assert!(decisions.evicted_ids.is_empty());
}

#[test]
fn raw_section_label_aliases_before_cap_lookup() {
    let mut entries: Vec<IndexEntry> = (1..=3)
        .map(|number| done(&format!("PWF-{number:04}"), &format!("2026-01-{number:02}"), "futuro"))
        .collect();
    entries.push(open("PWF-0004", "Futuro"));

    let decisions = close_decisions(&entries, &Vec::new(), "PWF-0004", "2026-07-07");

    assert_eq!(decisions.evicted_ids, vec!["PWF-0001".to_string()]);
}

#[test]
fn futuro_header_normalizes_when_target_entry_is_missing() {
    let sections = vec![section("Futuro")];

    let decisions = close_decisions(&Vec::new(), &sections, "PWF-0001", "2026-07-07");

    assert!(decisions.normalize_futuro_header);
    assert!(!decisions.mark_target);
    assert!(decisions.evicted_ids.is_empty());
}

#[test]
fn futuro_header_check_is_case_insensitive_and_trims_whitespace() {
    let sections = vec![section("  FUTURO  ")];

    let decisions = close_decisions(&Vec::new(), &sections, "PWF-0001", "2026-07-07");

    assert!(decisions.normalize_futuro_header);
}

#[test]
fn unrelated_headers_do_not_normalize() {
    let sections = vec![section("Human"), section("Future")];

    let decisions = close_decisions(&Vec::new(), &sections, "PWF-0001", "2026-07-07");

    assert!(!decisions.normalize_futuro_header);
}

#[test]
fn closing_within_the_cap_evicts_nothing_and_marks_the_link() {
    let entries = vec![done("PWF-0001", "2026-01-01", ""), open("PWF-0002", "")];

    let decisions = close_decisions(&entries, &Vec::new(), "PWF-0002", "2026-01-02");

    assert!(decisions.mark_target);
    assert!(decisions.evicted_ids.is_empty());
}
