# fabrix (SQL builder core)

A Verus library for fabrix's SQL builder.

- `src/builder.rs`: SQL dialects (`SqlBuilder`), index types and options,
  table fields, and the conversions between cell values (`Value`) and SQL
  query values (`SValue`), with the round-trip law between them.
- `src/ddl_query.rs`: the table-existence, table-schema, table-list and
  primary-key queries of each dialect.
- `src/model.rs`: plain-value models of column data types, fields, series
  headers and values, with their display and `Debug` texts.
- `src/errors.rs`: the error types.
- `src/util.rs`: the iteration `Stepper` and small error helpers.
- `src/text.rs`: sequence-level text functions and the trusted wrappers over
  std's and `uuid`'s string functions.
- `app/`: `Display` for the errors (via `thiserror`), conversions to and from
  `polars` and `sea_query` types, and the constructors of polars-backed
  dataframes.
