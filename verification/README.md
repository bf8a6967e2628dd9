# upbase

A block-document service: documents made of typed blocks with a change log,
component templates, and table-storage records, kept in SurrealDB and served
over HTTP.

- `src/` is the verified library (Verus): the data model and its rules
  (`document`, `value`, `template`, `tables`, `record`, `clock`, `persona`),
  the service's errors (`error`), what the stores make of the database's
  answers (`store`), and the decisions of the request handlers (`flow`), the
  multi-step ones as state machines.
- `app/` is the program around it: the HTTP server and routes, the database
  connection and calls, the JSON forms of the records and their conversions
  to the library's types.
- `tests/` runs the library on concrete values.
