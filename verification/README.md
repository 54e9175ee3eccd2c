# agos

An Arabic grammar analysis pipeline, written in Verus: each stage states what
it computes in `requires` / `ensures` contracts over mathematical models, and
Verus proves the code against them.

## Layout

- `src/` — the verified library.
  - Shared vocabulary: `types`, `feature` (the 64-bit morphological feature
    bitfield), `version`, `error` and the per-stage errors (`morph_error`,
    `syntax_error`, `kb_error`), `evidence`, `ir` (the stage outputs).
  - Pipeline plumbing: `pipeline`, `config`, `logging`, `text`.
  - Stages: `unicode_validator` (NFKC normalization and cleanup), `lexer`,
    `tokenizer` (clitic segmentation), `morphological_parser`,
    `syntax_parser`.
  - Knowledge bases: `kb_types`, `kb_suite` (the loaded suite and its
    lookups), `kb0004` (noun and verb profiles by pattern).
  - `analysis_service`: the decisions of an analysis request — which
    validator settings it asks for, and the order in which the stages run.
- `tests/` — tests that run the compiled library.
- `app/` — the HTTP server around the library: request handling, reading
  knowledge bases from disk, JSON, logging and timing.

The calls into `unicode-normalization`, and into the parts of `std` that
Verus does not specify, stand behind small trusted wrappers whose doc
comments say what is assumed of them.
