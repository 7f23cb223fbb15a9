# Relix

A Pratt parser for a small scripting language, written in Verus: a
regex-driven lexer, binding-power tables, and recursive-descent handlers that
build an abstract syntax tree. Every parsing routine is proved to compute
exactly the outcome that a spec function of the grammar describes.

## Layout

- `src/lexer/` — token kinds (`token.rs`), the pattern table and the lexer
  (`tokenizer.rs`), and the trusted calls into the `regex` crate
  (`matcher.rs`).
- `src/parser/grammar.rs` — the accepted language as spec functions over token
  streams, and the properties proved of it.
- `src/parser/` — the parser state and entry point (`parser.rs`), the lookup
  tables (`lookups.rs`), and the expression, statement and type handlers.
- `src/ast/` — the syntax tree and its models.
- `app/main.rs` — reads `test.lang`, parses it and prints the tree or the
  first error.

## Usage

```rust
use relix::parser::parse;

let block = parse("let x = 10;").unwrap();
assert_eq!(block.body.len(), 1);
```
