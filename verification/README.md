# chronicle

The web site of a vampire chronicle: players keep their characters' sheets
and spend experience, storytellers review and approve, and everyone reads the
chronicle's wiki.

- `src/` is the verified library (Verus): the routing table and its laws,
  the authentication and login steps, cookie headers, form checks, torpor and
  date handling, experience prices and the grouping of characters.
- `app/` is the server around it: HTTP with hyper, the database with sqlx,
  the identity provider with openidconnect, and the HTML pages. It runs the
  library's decisions and does the outside work they name.
- `tests/` exercises the library on concrete values.

The server reads its settings from the environment or a `.env` file:
`MAX_CONTENT_LEN`, `DATABASE_URL`, `OIDC_CLIENT_ID`, `OIDC_CLIENT_SECRET`,
`OIDC_REDIRECT_URI`, `ADMIN_OIDC_SUBJECT`, `OIDC_ISSUER_URL` and
`OIDC_REVOCATION_URL`. It serves the root assets from `assets/` and runs the
database migrations in `migrations/` at start.
