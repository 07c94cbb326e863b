# blog001

A small blog server (Axum, SQLite, Leptos server-side rendering) whose
decision-making core is a Verus-verified library.

* `src/` — the verified library (`blog001`):
  * `session` — in-memory session store (token → user, expiry), with laws
    on what validating a token gives after it was created, lapsed or ended;
  * `cookie` — reading the session token out of a `Cookie` header and
    writing the `Set-Cookie` values, with a round-trip law;
  * `auth` — login, "who am I", logout, and the session checks of the admin
    pages and the JSON endpoints;
  * `slug` — slug generation, with its shape and idempotence laws;
  * `posts`, `tags`, `reply` — request validation of the post and tag
    endpoints and the reply each database outcome gets;
  * `tag_ids`, `association` — the ordered id set and the step machine that
    replaces the tags of a post;
  * `router`, `views`, `config` — page routes, the texts and links the
    pages show, and the port setting.
* `app/` — the server itself: HTTP handlers, database access, the clock,
  the Leptos page components, and `main`.
* `tests/` — tests of the library.
