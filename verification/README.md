# pwf_application

The application layer of the `pwf` pending-work tool, verified with Verus: what the
commands and queries over pending-work items, handoff documents, project notes and agent
sessions decide, stated as `requires`/`ensures` contracts and proved.

Storage, allocation, catalogs, clocks, title rules, Zellij and user confirmation are ports
(traits). What a port answers is not specified, so the orchestrating functions promise only
what holds whatever it answers. Most decisions taken on a port's answer, and most values
handed to a port, are made by verified functions with exact contracts (for example
`handoff_tagged`, `gate_item`, `gate_presence`, `close_source`, `close_settled`,
`reopen_source`, `reopen_settled`, `scaffold_of`, `scaffold_destination`,
`open_records_named`, `single_match`, `newest_continuation`, `close_patch`,
`verification_of`, `after_first_open`, `note_to_insert`). Not covered that way: which rows
`rebuild` writes is `ledger_rows` of the listing, but what the store holds after a ledger
write, and after the compensating restores and deletions of the handoff commits, rests on
the ports.

Layout:

- `src/pending_work/` — identifiers, sections, tags, the done queue, listing, finding,
  adding, closing (done, cancel), reopening, removal, prerequisites, enrichment and the
  agent-session policy (`session/`).
- `src/handoff/` — handoff naming, the ledger, adding handoffs and the lifecycle checks and
  writes that keep handoffs in step with their pending-work items.
- `src/note/` — numbered project notes.
- `src/text.rs`, `src/patterns.rs` — string primitives and the `regex`/`std::path` calls the
  policies rely on.
- `tests/` — executable tests over in-memory adapters.
- `app/` — reports the library's failures as standard errors.
