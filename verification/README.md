# main_app

A Google sign-in service. The library under `src/` holds its logic, verified
with Verus:

- `client`: the OAuth client, the authorization URL a user is sent to, the
  Google login URL, and the request that trades a code for a token.
- `token`: the token the token endpoint returns, its token type,
  and its extra fields.
- `claims`: reading the claims out of an ID token.
- `flow`: the sign-in callback as a state machine that decides between login
  and registration.
- `migration`: the plan of the database migration for `users` and `accounts`.
- `text`: splitting and joining of strings.
- `external`: the outside functions the library calls, with the contracts it
  assumes of them.

`app/` is the web server (axum, reqwest, sea-orm): it performs the HTTP and
database work that the library's functions ask for.
