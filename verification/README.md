# warp_server

A self-hostable server for Binary Ninja's WARP signatures, with its rules
proved in Verus.

* `src/` is the verified library: configuration from the environment,
  API-key and session authentication, the username and e-mail rules, who may
  change which source, commit or user, the filters each query applies, the
  search plan, the pagination window, cascading deletes, which stored rows
  go into which chunk of a served WARP file, the gzip sniffing of request
  bodies, the command line, and the step-by-step OAuth login. Each public
  function carries a contract over spec functions and views; laws that span
  several calls are public proof functions (`lemma_*`).
* `app/` is the program around it: the actix-web routes, the SQLite
  statements (sqlx), the OAuth provider calls (reqwest), the WARP file
  format (the `warp` crate), and the JSON shapes of the API.
* `tests/` exercises the library on concrete values.

Calls into outside crates that the library makes (SHA-256, hex, random
bytes, UUID text, JSON lists, e-mail syntax, base64, gzip, URL building,
RFC 3339 times, JSON members) each sit behind one small trusted function
whose contract names what the crate computes.
