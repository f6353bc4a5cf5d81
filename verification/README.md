# store_service

Backend of a store-ordering service: customers register, activate and log
in; stores publish menus; clients look stores up near a point.

- `src/` is the verified library: identifiers and the clock (`ids`), the
  records exchanged with clients (`model`), the CQL statements (`cql`),
  comma-separated list fields (`text`), reading query rows (`rows`),
  accounts (`users`), menus (`menu`), stores (`stores`), a model of the
  stored tables with what later lookups give back (`tables`), and the answers of
  the endpoints (`http`).
- `app/` is the HTTP server (actix-web) and the database client (scylla).
  It binds what the library prepares, runs the queries and sends the
  answers that the library chooses.
- `tests/` runs the library on concrete values.
