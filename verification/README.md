# libretunes

The core of a music streaming service, written in Verus: each function
states its behaviour in `requires` / `ensures` clauses and is proved to meet
them.

- `src/` — the verified library: how catalogue queries become song and album
  lists, the player's queue and history, likes and dislikes, sign-up and
  log-in decisions, page addresses and labels, forms, and durations.
- `tests/` — tests of the library on concrete values.
- `app/` — the server around the library: request handlers that take the
  database and session operations as functions, the records as they travel
  between browser and server, date conversions, and the play bar's
  floating-point clock.

Calendar dates are day numbers counted from the start of the common era and
points in time are microseconds since the Unix epoch; chrono turns them into
text and reads dates typed into forms.
