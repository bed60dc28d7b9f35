# iota_metrics

Hardware description metrics and the indexer data provider's decisions,
verified with Verus.

- `src/slug.rs`: slugs of free text (lowercase, hyphen-separated) with their
  shape and letter-preservation laws.
- `src/text.rs`: the std string operations that vstd does not specify.
- `src/model.rs`: the metric data a collector reports (families, metrics, labels).
- `src/hardware_metrics.rs`: the hardware description built from the system's
  readings, the metric family it reports, and the registration answer.
- `src/data_provider.rs`: which system state answers a request, and which stake
  answers a delegated-stake query.
- `app/`: reading the machine through sysinfo, the prometheus collector and its
  registration.

The data provider's own reads (the system state and stake queries, and opening
the indexer reader with its pool size and statement timeout) are not part of
this crate: they go through the indexer's crates, which belong to the same
workspace as the original and are not available here. Only the decisions made
on their results are in `src/data_provider.rs`.
