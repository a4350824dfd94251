# catalyst

A social blogging platform: posts that are optionally signed with Ed25519,
special posts that delete or link other posts, and anchors that tie one post
to a passage of another.

- `src/` is the verified library (Verus). It decides what happens to a
  submitted post (its id, whether its signature verifies, the command it
  carries), whether an anchor may be stored, what a listing holds, and which
  database queries are run. Calls into outside crates (hashing, base64,
  Ed25519, JSON) stand behind small trusted wrappers in `src/primitives.rs`.
- `app/` is the program around it: the two web servers (database-backed and
  file-backed), the database runner and the browser bindings.
- `tests/` runs the library on concrete values.
