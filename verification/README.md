# verifyos_cli

A verified library for checking iOS app bundles (`.ipa`, `.app`) against App
Store review rules, with the `voc` command line around it.

- `src/` is the library, written in Verus: the rules and the facts they read,
  the profiles and rule selection, reports (table, markdown, SARIF, fix
  packs), the AGENTS.md managed block and agent prompts, the doctor's checks,
  the HTTP service's scan, upload, rate-limit and sign-in logic, and the laws
  that tie these together (`src/laws.rs`). Calls into plist, goblin,
  comfy-table and textwrap go through small trusted wrappers whose contracts
  name what those crates compute.
- `app/` is the command line: argument parsing, reading bundles and files,
  unpacking archives, JSON and TOML, writing outputs, and the language server.
- `tests/` exercise the library on concrete values.

The command line cannot read code signatures or the entitlements embedded in
them (no code-signing reader is linked). For a real bundle the signing and
entitlement rules therefore report an error, and with the default
`--fail-on error` the scan exits with failure; the library's rules themselves
take those facts as input and are verified for every value of them.
