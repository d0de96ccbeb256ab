# dodo_payments

The invoice and payment logic of the Dodo billing service, verified with Verus.

- `src/` is the library. It holds the invoice lifecycle
  (`domain::value_objects::invoice_state`), the rules on state changes and
  amounts due (`domain::services::invoice_service`), the payment decisions
  (`domain::services::payment_service`: what may be charged, how each PSP
  answer settles a payment, how a pending attempt is recovered), idempotent
  replay (`application::idempotency`), webhook signing, headers and the retry
  schedule (`domain::services::webhook_service`,
  `infrastructure::webhooks`), API key issuing, hashing and authentication (`infrastructure::auth`),
  random keys and secrets (`shared::random`), the PSP endpoint and the mock
  PSP with its ledger of idempotency keys (`infrastructure::psp`), settings defaults
  (`config::settings`) and the HTTP answer of each error (`shared::errors`).
  Hashing, signing and random draws call `sha2`, `hmac`, `hex`, `argon2` and
  `rand` through small trusted wrappers.
- `app/` is the service around it: axum routes and handlers, the PostgreSQL
  repositories, the PSP HTTP client, the background workers and the mock PSP
  (`app mock-psp`). It reads, calls the library for every decision, and
  writes what the library decided.
- `tests/` runs the library on concrete values.
