# codex_core

The decision logic of an agent's tool layer, written in Verus and proved
against its contracts: research prompts and result files, the document
reader's reading view, code-intelligence and language-server output,
workspace roots, workspace-edit previews as `apply_patch` patches, shell
snapshots around commands, URL attachments, cropped PDF figures, the
credentials of the research and data toolkits, the `js_repl` tool's report,
the declarations of the `lsp`, `code_intel`, reading-view, research, dataset
and `js_repl` tools, the coordination tools' posting rule, and the small
Supabase client with its sessions.

- `src/` is the verified library; each module states its model with spec
  functions and proves its functions against them. Laws that relate several
  calls are public proof functions named `law_*`.
- `tests/` run the library on concrete values.
- `app/` holds what stays outside the proofs: JSON with serde, file-system
  checks, the session file, panic guards, the choice of platform.

Calls into outside crates go through a few wrappers marked
`#[verifier::external_body]`, each documented with what its contract claims.
