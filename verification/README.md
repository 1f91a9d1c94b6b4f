# vivcms

A small forum (boards, threads, posts with revisions, user accounts) whose
decisions are proved with Verus.

- `src/` is the verified library: password and cookie hashes (`auth`), the
  decimal form of ids (`decimal`), the records written to the database and
  the joining of rows read from it (`storage`), and what each page answers
  given the session and the rows read for it (`pages`). `digest` and
  `markdown` hold the calls into `sha2`, `hex` and `spongedown`.
- `app/` is the web server: routes (Rocket), cookies, the database (Diesel
  on SQLite) and HTML templates (Askama). It reads what a request needs,
  hands it to the library, and sends the library's answer.
- `tests/` runs the library on concrete values.
