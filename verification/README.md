# SQL query syntax tree

The query part of a SQL syntax tree (queries, `WITH` clauses, set operations,
`SELECT` statements, select targets, table references and joins), with the
SQL text each node renders as, proved against a specification of that text.

- `src/common.rs`: spans, identifiers, quoting, decimal numerals, and the
  `SqlText` trait with the list and option helpers used by every node.
- `src/expr.rs`: the scalar expressions, literals, windows, lambdas, hints and
  stage locations that queries embed.
- `src/query.rs`: the query node types and their accessors.
- `src/render.rs`: for each query node, the spec function that says what its
  SQL text is and the function that writes it.
- `src/laws.rs`: properties relating the accessors and the rendering.
