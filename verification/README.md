# psbt-guard-core

Offline, read-only analysis of Partially Signed Bitcoin Transactions (PSBT,
BIP 174) against a user-declared payment intent, written in Verus. The
library never handles keys, never signs, never broadcasts and makes no
network requests; its findings are advisory, never a guarantee of safety.

## Layout

- `src/` — the verified library.
  - `bitcoin_api.rs` — the calls into the `bitcoin` crate (decoding PSBTs,
    reading their maps, addresses, sighash names), each with a trusted contract.
  - `facts.rs` — `PsbtFacts`, the plain values the rules read from a PSBT.
  - `parse.rs` — binary and base64 PSBT decoding, and the binary-then-text
    fallback used for file contents.
  - `intent.rs` — payment intents and their validation.
  - `model.rs` — severities, finding codes, evidence, findings, analysis context.
  - `rules/` — PG101–PG105, PG201 and PG301–PG304, plus the rule registries.
  - `report.rs` — summaries, blocking verdict, and `analyze`.
  - `catalogue.rs` — the explanation of every finding code.
  - `render.rs` — the text form of reports and rule explanations.
  - `laws.rs` — properties spanning several functions, proved.
  - `text.rs` — decimal and hexadecimal rendering, string comparison.
- `tests/` — tests of the library, run against the real `bitcoin` crate.
- `app/` — the `psbt-guard` command line: argument parsing, file and stdin
  input, TOML/JSON manifest decoding, text and JSON output, exit codes.

Every contract in `src/` is checked by Verus; the items in `bitcoin_api.rs`
and the two std wrappers — `str::trim` in `model.rs` and `str::from_utf8` in
`parse.rs` — are the trusted boundary.
