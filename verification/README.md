# stellar_tipjar

The verified core of a Stellar tip-jar backend, written in Verus.

- `src/` is the library. Its contracts state what each function returns,
  over `Seq<char>` views of strings, maps for the caches, and plain numbers.
  - `text`: character-level string operations (search, replace, lines,
    join, white-space words) with their specifications.
  - `db`: the named-statement cache, the SQL rewrites, the slow-query
    threshold, query-plan reading and index recommendations.
  - `events`, `cqrs`: domain events, their replay as of a sequence number,
    and the read-model statement each event asks for.
  - `services`: token claims and kinds, bcrypt password hashing, and the
    limits a tip amount must meet, with the steps of validating a tip.
  - `config`: the Vault secret cache, the KV v2 lookup steps and how a
    secret resolves.
  - `time`, `identity`, `keyed`: spans of time, the clock, identifiers,
    timestamps, and a string-keyed map with an invariant.
- `app/` is the service plumbing: database and HTTP calls, Vault requests,
  JSON Web Tokens, serialisable copies of the payloads, and telemetry.
- `tests/` runs the library on concrete values.
