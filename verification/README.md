# exp-box

A local pentesting training platform: a public gateway (auth proxy, room
registry, room actions and progress), an internal auth service (users,
Argon2 password hashes, cookie sessions) and vulnerable training rooms
(RCE and stored XSS / CSRF).

## Layout

- `src/` — the library, verified with Verus. It holds what the services
  decide: reading the session cookie, what each answer of the auth service
  means, which room actions may be forwarded and where, what a room's
  answer becomes, how flags are judged, which registrations and logins
  succeed, and what the XSS room accepts and stores.
- `app/` — the services themselves (axum handlers, database queries, HTTP
  calls), which do the I/O and ask the library what to do. Run one with
  `exp_box gateway | auth | room-rce | room-xss | backend | backend-plain`.
- `tests/` — tests of the library on concrete values.

Calls into outside crates (`sha2`, `hex`, `serde_json`, `argon2`, `uuid`,
`reqwest`'s status codes) and a few `std` functions stand behind small
trusted wrappers whose contracts are stated in their doc comments.
