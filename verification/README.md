# rezis

Rezis is a NestJS-inspired backend framework on Axum (modules, controllers,
services, DTO validation, JSON success/error envelopes, logging, CORS, `.env`
config) with a `rezis` CLI that scaffolds projects and resources.

Layout:

- `src/` — the verified library (Verus): name checks (`names`), text primitives
  (`text`), placeholder substitution (`template`) and the template texts
  (`templates`), the CLI's plans for `rezis new` / `rezis g` (`scaffold`, `cli`),
  source patching of `mod.rs` and `app_module.rs` (`patch`), port configuration
  (`config`), error codes, statuses and JSON envelopes (`error`, `response`),
  request-body outcomes (`validation`) and the route record (`routing`).
  The `law_*` proof functions state what holds across calls (idempotent
  patching and name checks, the port round trip).
- `app/` — the Axum server, the clap CLI and file-system access, built on the
  library.
- `tests/` — tests of the library.
