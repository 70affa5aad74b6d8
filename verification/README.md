# spaghetti_catalog

The catalog rules of the Spaghetti engine, verified with Verus: catalog-first
discovery and its readiness vector, snapshot-consistent catalog and capability
paging, the catalog hydration scheduler, the restart checks of a Ready
publication (lineage classification, header, entries and the depth-bounded
predecessor chain), the checks of retained-snapshot page reads, the planning
and restart checks of snapshot retirement, the decisions of initial and
refresh publication, the catalog refresh policy, and the file-history
artifact projection.

The durable frame decoders and the entries and content digest derivations of
the catalog contract are not part of this crate: the checks take what they
compute as plain values.

Layout:

- `src/` — the verified library. Every public function states its result in
  `requires`/`ensures`; cross-function properties are public proof functions
  (`lemma_*`). Calls into `base64`, `blake3` and `serde_json`, and the few std
  functions vstd does not specify, go through small trusted wrappers whose doc
  comments say what is assumed.
- `tests/` — executable tests against the compiled library.
- `app/` — unverified host code: SQLite statements, JSON/TypeScript wire
  types, and the refresh and hydration worker threads. The statements read
  and write rows; what the rows mean and what to do with them is a library
  call.
