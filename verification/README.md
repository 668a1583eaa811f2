# sqlparser_ddl

The syntax tree of SQL data definition statements (`CREATE DOMAIN`, `CREATE FUNCTION`,
`CREATE CONNECTOR`, `ALTER TABLE` and its operations, table constraints, column
definitions and column options) together with its rendering as SQL text, and a small
tokenizer for whitespace, integer literals and arithmetic operators. The library is
written in Verus: every rendering function is proved to produce exactly the text that a
specification function states.

Layout:

- `src/text.rs` — the `SqlDisplay` trait (`sql` states the text, `to_string` builds it),
  separated lists, optional parts, and the escaping of quotes inside quoted strings.
- `src/fragment.rs` — identifiers and object names, and the parts of the tree that the DDL
  nodes carry without looking inside (expressions, data types, options, ...), held as
  their SQL text.
- `src/constraint.rs` — table constraints, index types and options, constraint
  characteristics, referential actions.
- `src/column.rs` — column definitions and column options.
- `src/create.rs` — `CREATE` statements and shared clauses.
- `src/alter.rs` — `ALTER` operations.
- `src/tokenizer.rs` — the generic tokenizer.
- `tests/` — rendering and tokenizer tests.
- `app/lib.rs` — copies of the tree types that derive `serde`'s `Serialize` and
  `Deserialize`, with `From` conversions both ways.
