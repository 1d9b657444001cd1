# trustify (verified core)

The decision logic of a software-supply-chain knowledge base, written in Verus
with contracts over `Seq`/`Option` views and proved.

`src/` (verified):

- `text` — character-wise prefix test.
- `prefix` — ordered prefix-to-organisation matcher; laws on first match and on appending.
- `osv_json` — parsing OSV JSON text (through `serde_json` and `osv`) into the model.
- `osv_model`, `osv_loader` — the parts of an OSV record that ingestion reads, and
  `plan_ingest` / `plan_ingest_json`, which compute what loading a record writes:
  advisory information (with issuer detection), CVE links, the CVSS v3 score
  strings (to be parsed as CVSS vectors by the caller), and the affected/fixed
  package statuses derived from each range's events. Writing them to the
  database is the caller's.
- `cpe` — the column conditions of a CPE lookup, and the reuse-or-insert decision.
- `migration` — the ordered migration list (plain and data migrations) and the
  catalogue of the knowledge base's migrations.
- `m0001200_add_sbom_node_checksum_idx`, `m0002000_example_data_migration`,
  `schema_change` — the schema changes of two migrations as plain values.
- `data_command` — the `data list` / `data run` subcommands.
- `curation`, `model` — the steps of loading a ClearlyDefined curation and the ingest result.

`app/` (plain Rust): reading OSV records,
applying schema changes through `sea-orm-migration`, building the CPE condition
with `sea-query`, and the `clap` form of the `data` command.
