# dbmod

A small desktop tool that rebuilds PostgreSQL tables from two JSON files
(`postgresql_json/breaker_db_tables.json`, table name to `CREATE` SQL, and
`postgresql_json/breaker_db_table_values.json`, table name to `INSERT`
statements) and lets the user edit those files.

- `src/` is the verified library (Verus): messages, loading and listing of
  files, JSON parsing (through `serde_json`), the drop-down menu logic, the
  application state, and the table rebuild as a step function with its laws
  (`rebuild_laws.rs`).
- `app/` is the program around it: the `eframe` window, the file system and
  the `postgres` connection, which performs each step the library decides.
- `tests/` runs the library on concrete values.
