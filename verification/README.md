# url_shortener

A URL shortener whose decisions are verified with Verus.

- `src/parser/long_url.rs`: the checks on a long URL (present, not blank,
  parses as a URL), with exact error messages.
- `src/key.rs`: short keys, the first eight hexadecimal digits of the SHA-256
  digest of a URL, and short URLs.
- `src/handler/`: payloads, errors and replies; the steps of adding,
  redirecting and deleting, each a function from what the store answered to
  what follows; `model.rs` states the store as a map and proves the laws
  that the steps keep (a key returned by an add redirects to its URL, adding
  twice changes nothing, a deleted key is not found).
- `app/`: the HTTP server (actix-web) and the Redis store, which drive the
  library's steps.
