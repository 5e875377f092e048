# cabinet_usecases

The usecase layer of a document cabinet: the rules that decide what a request
to the stores and services of the cabinet does, and the values it reports.
Every function in `src/` is verified with Verus against its `requires` /
`ensures` contract, except four small trusted wrappers marked
`#[verifier::external_body]`: one around the `similar` crate's Myers diff and
three around std string functions (`str::chars`, collecting `char`s into a
`String`, and `str::trim`); their contracts state what the wrapped functions
are documented to do.

Layout:

- `src/text.rs`, `src/sequences.rs`: text helpers (trimming, masking, ordering,
  decimal parsing, sorting) and general lemmas about filtered sequences.
- `src/document_diff.rs`: line diffs of document revisions, computed with the
  `similar` crate behind one trusted wrapper, and the laws that relate a diff
  to the two texts.
- `src/graph.rs`, `src/global_graph.rs`: knowledge-graph projections (bounded
  local graphs, permission filtering, merged global graphs).
- `src/collaborator_errors.rs`, `src/domain_errors.rs`: the failures that the
  stores, services and domain rules report, as plain enums; each usecase
  module says how it reports them.
- one module per usecase family (documents, assets, backups, canvases,
  comments, locks, audit, authentication, AI answers, ...): inputs, outputs,
  error codes, product events, and the decisions taken between calls to the
  outside world. The longer usecases are step functions (`import_next`,
  `stage_next`, `restore_next`, `ask_next`, `backup_run_next`,
  `restore_job_next`, `login_next`, `session_next`, `preview_next`,
  `recover_next`, `cancel_import_next`, `audit_query_next`,
  `asset_link_next`, ...): given where a run stands (with the values in
  hand, such as a job or a session, as the caller's types) and what the last
  call returned, they say which call comes next and with which arguments,
  which product event is written and how the run ends and with what. Each
  has a `check_*_reply` function that says whether a reply can answer the
  call awaited; the runners check it before handing a reply on.

`tests/` holds the scenarios run against the compiled library; `app/` holds
the loops that drive the step functions through caller-supplied adapters.
