# psp5d

A deterministic execution kernel whose behaviour is stated in Verus contracts
and proved.

- `src/` is the verified library: canonical JSON text (strings in Unicode
  Normalization Form C) and its SHA-256 digest,
  the engine that runs a program's roles and records a digest trace, evidence,
  manifests, the ledger and its audit, replay checks, the model pack (UIR
  graphs, hypercube moves, HDAG ranking, TriMoebius clocks, blocks, the text
  and Python frontends) and the Triton operators (spiral exploration,
  Solve/Coagula gate, TIC crystallization).
- `tests/` runs the library on concrete values.
- `app/` is the `psp5d` command line (`run`, `replay`, `audit`): file I/O,
  JSON parsing and printing, and the floating-point observers.

Artifacts are not validated against JSON schemas: the schema documents
that such a check needs are not part of the project.
