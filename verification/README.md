# app_settings

The settings model of a desktop app, verified with Verus.

- `src/types.rs`: the settings of each module (ad blocking, cache, clipboard,
  appearance) and their defaults.
- `src/modules.rs`: validation, summaries and JSON statistics of each module.
- `src/text.rs`: decimal and list rendering, prefix tests, whitespace trimming.
- `src/json.rs`: the `serde_json` values the statistics are built from.
- `src/health.rs`: the decisions of the start-up health check.
- `src/laws.rs`: properties proved for all inputs.
- `app/`: serde forms of the types, the `ModuleSettings` trait, and the health
  check that reads the settings file and the disks.
