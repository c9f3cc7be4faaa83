# shortas

The management core of the Shortas link shortener, written in Verus: the
functions in `src/` carry contracts (two field-less constructors aside, which
have nothing to state), and Verus proves them, except for the trusted calls
gathered in `ext`.

## Layout

- `src/` — the verified library.
  - `error`, `entities`, `outbox`, `user` — error codes, routes, domains,
    certificates, workspaces, outbox messages with their retry schedule, users
    and onboarding.
  - `dto/` — request and response objects and their conversions to and from
    entities.
  - `route_service`, `access`, `requests`, `domain_listing`, `pagination` —
    the rules of the service: ownership, immutable fields, link length and
    link suggestion, workspace permissions, paging; and the step functions
    that say, from the store's answers so far, what a route creation or
    update, a certificate creation, a user's initialization, a workspace
    change or a member removal does next; and the seeding of shared domains,
    with its idempotence law.
  - `click_router`, `search`, `analytics`, `queries`, `messaging`, `web` —
    what goes to and comes from the other services: camel-case JSON for the
    router, search requests and answers, statistics aggregation and query
    URLs, SQL filter fragments, message handling (the consumers' and the
    outbox loop's steps), HTTP rules and bearer-token validation.
  - `rows`, `settings` — database rows read into entities, and the
    service's settings with their defaults.
  - `json`, `text` — a JSON value model and decimal text.
  - `tls` — key material and its lookup (cache, then store).
  - `ext` — the calls into `uuid`, `chrono`, `rand` and `jsonwebtoken`, each behind a small
    trusted item whose contract states what the callee promises.
- `tests/` — tests of the library.
- `app/` — the process around it: settings loading, HTTP clients, token
  validation, rate-limit buckets.
