# onepurge

The decision logic of a macOS disk-space cleaner, verified with Verus.

`src/` is the verified library:

- `path` — Unix path components and component-wise prefixes.
- `deletion` — which resolved paths may be deleted (inside the home
  directory, below a known safe location or in a regenerable project folder;
  never the home directory or a protected top-level folder).
- `plausibility` — whether a stored item's path fits its category.
- `classifier` — downgrading dependency folders of projects with uncommitted work.
- `scan_result`, `sorting` — grouping found items into categories, largest first.
- `recipes`, `docker`, `ids` — the items the scan recipes report, Docker's
  usage report, and SHA-256 based item ids.
- `cleanup` — selecting items for removal, progress and audit records.
- `text`, `model` — character helpers and the shared data types.

`app/` runs the scans, the external tools and the deletions, and hands what it
observes to the library. `tests/` exercise the library, including checks of
the path rules against `std::path`.
