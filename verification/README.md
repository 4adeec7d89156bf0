# hyperparts

Source-attributed part knowledge graphs and cross-domain handoff records,
verified with Verus.

The crate records part families and variants, assertions, terminals,
interfaces, compatibility, geometry and physics handles, EDA intake,
procurement facts, and manufacturing capabilities without erasing provenance
or uncertainty. Every public operation carries a contract stated over the text
of identifiers and exact numeric spellings.

## Layout

- `text`, `keyed`: character-level text operations and the key-ordered record
  sequences that stand for the graph's maps, with their lookup laws.
- `exact`: `ExactValue`, the exact spelling of a number that `hyperreal`
  accepts; comparisons and equality are decided by `hyperreal`/`hyperlimit`
  behind named results.
- `predicate`: closed-interval overlap with certified disjointness.
- `identity`, `assertion`, `interface`, `electronics`, `geometry`, `physics`,
  `process`, `query`, `compatibility`, `error`: the carriers of part knowledge.
- `graph`: `PartFamily`, `PartVariant`, `PartGraph`, ranked part queries, and
  the conservative safe-connection decision.
- `eda_intake`, `intake_log`, `intake_parse`, `intake_records`: the EDA
  authoring intake pass. Each step's audit events, assertions, terminals, and
  handoffs are stated record by record; `import_eda_authoring_bundle` states
  the whole report, status, graph, and handoffs of a bundle.

## Exact values

`ExactValue` keeps the source spelling (`"0.125"`, `"100/300"`, `"-42"`) rather
than a float. Whether a spelling parses, and how two spellings compare, are
answered by `hyperreal` and `hyperlimit` at run time; the contracts name those
answers and state everything the library does with them.
