# rugen

Building blocks for Rune scripts that parse text into syntax trees and generate code,
written in Verus with their behaviour stated as contracts and proved.

- `src/scanner.rs` — a forward-only character scanner (`Scanner`): its state is the
  decoded input and an offset; line and column are functions of the offset. Every
  consuming operation is specified by where it leaves the offset (`run_end`,
  `find_from`, `quoted_body`, …) and returns exactly the text it consumed.
- `src/ast_types.rs`, `src/ast_module.rs` — generic AST nodes with spans, role names and
  attributes, specified over their mathematical value `AstNodeView`.
- `src/types.rs`, `src/code_module.rs` — a model of Rust-like code (types, patterns,
  expressions, statements, items, modules) with its constructors and one-line
  summaries.
- `src/code_view.rs` — the mathematical value of each code-model type (strings and
  vectors read as sequences); copies made by `clone` are specified to equal the
  original over these values.
- `src/text.rs` — character classes, decimal rendering and string building.
- `app/` — the command-line tools: Rune module registration, JSON I/O and argument
  handling, with copies of the library types that carry Rune's and serde's derives.
