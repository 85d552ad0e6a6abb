# best_clips

The decision logic of a voting site for a clip contest, verified with Verus.

- `src/` is the verified library: server parameters (`config`), server state
  and per-round voter records (`state`), admin session tokens (`auth`),
  password checks (`password`), route replies (`reply`) and the routes
  themselves (`vote`, `login`, `server_config`, `server_tables`, `admin_data`).
- `app/` is the HTTP server around it: it reads requests and the SQLite
  database, calls the library, writes what the library asks for and sends
  the reply.
- `tests/` runs the library on concrete values.
