# frontend

The verified core of a small notes web client (sign-up, sign-in, a notes
editor with periodic saving), written in Verus.

- `src/` is the library: routing (`routes`), the session check and JWT
  expiry (`auth`, `token`), the forms (`forms`), the notes editor
  (`notes`), endpoints (`api`), text helpers (`text`), and the calls into
  `base64` and `serde_json` (`codec`, `json`).
- `app/` is the browser program built with `yew`: it renders the pages,
  performs storage and HTTP actions, and hands the outcomes to the library.
- `tests/` exercises the library on concrete values.
