# crm_adapters

Verified decision logic of the CRM capability and query adapters for Data
Quality, Customer Privacy, Identity Resolution and Global Search. Every
function under `src/` carries a Verus contract and is proved against it, but
for `text::push_char`, whose contract restates what std documents of
`String::push` and is trusted.

Layout of `src/`:

- `capability`, `errors`, `text`, `lookup`: shared capability definitions,
  error categories, string helpers and keyed lookups.
- `dq_*`: Data Quality — mutation and query catalogs, the planners for rule
  sets, completeness profiles, evaluation jobs, staging and the staging
  worker's pass over a page of jobs, materialization, finding stewardship and
  remediation, query visibility and the public forms of findings, jobs and
  results.
- `privacy_*`: the Data Quality privacy-scope contribution — its contract,
  strict row acceptance, lineage validation, canonical-Party resolution,
  the family-ordered walk of the subject's records, cursor paging, the
  owner action policy, and `privacy_scope_read`, whose step types make a
  contribution pass every strict check, in order, before it can be paged.
- `cp_*`: Customer Privacy — case submission and subject verification
  planning, query catalogs and filters, the verdicts of single-record reads,
  and the public forms of cases, processing restrictions and legal holds.
- `ir_*`: Identity Resolution — candidate and merge planning, evidence
  scope checks and the unmerge transition check.
- `global_search`: projection of authoritative snapshot events into search
  documents.
- `page_collect`: the page collector shared by the list queries.

`app/` holds the runtime glue the library leaves to its caller: reading the
environment, reading record rows from Postgres, and driving the library's
paging, resolution, case-read, evidence-check and staging decisions across
the asynchronous reads and writes they ask for.
