# military_portal

Backend of the Military Portal: one binary serves the citizen, officer or
admin API over a PostgreSQL `applications` table, behind a gateway that
authenticates callers and asserts their identity in headers.

- `src/` is the verified library: the command line, gateway authentication,
  request validation, the decisions of every endpoint between its database
  calls, the notification e-mail texts, and a model of the `applications`
  table (`store.rs`) over which `laws.rs` proves what the endpoints promise
  (one application per citizen, verdicts only on pending applications,
  administrators' corrections, deletion, the listings' contents and order,
  statuses staying known).
- `app/` runs the service: axum routes and extractors, sqlx queries,
  the SMTP transport, and the process's start-up.
- `tests/` exercises the library, including end-to-end runs of the endpoint
  steps against an in-memory table.

Run one instance with

    military-portal --service-instance citizen:8081 --bind-host 127.0.0.1

with `DATABASE_URL` and `MAIL_HOST`, `MAIL_PORT`, `MAIL_FROM` set.
