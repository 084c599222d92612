# conduit_admin_graphql

The decisions behind an admin GraphQL API, written in Verus: which caller may
call which root field, which inputs are accepted and how they are normalised,
how listings are ordered, batched, merged and converted, and what every error
reads like.

- `src/` is the verified library. Apart from a look at the clock it does no I/O:
  resolvers hand it plain values and act on what it returns.
  - `authz_extension`, `authz_lists`, `scopes`, `policy`: root fields and their
    requirements.
  - `channel*`: channels, their models, settings, endpoints and issues.
  - `billing`, `credit_amount`: credit amounts, redemption codes, audit records.
  - `commercialization`: aliases that model routes call for.
  - `data_storage`, `apikey`, `change_set`, `dashboard`, `backup_ext`: the
    remaining domains.
  - `dataloader`, `edges`, `input`: batching, edges and strict inputs.
  - `text`, `text_map`, `scalars`: the values all of this is made of.
- `tests/` runs the compiled library.
- `app/` is the GraphQL side: the authorization extension, strict input parsing,
  the service traits and the resolvers that need them.

What is taken on trust stands next to the calls it is about: `String::push` in
`text`, `Regex::new` in `channel_settings`, and `Decimal::from_str`,
`DateTime::parse_from_rfc3339` and `Utc::now` in `credit_amount`.
