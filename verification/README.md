# lp

The verified core of `lp`, a music catalogue whose records (artists, albums,
songs, track lists) are kept as TOML files in a directory tree and imported
into a PostgreSQL database.

* `src/` is the library, verified with Verus:
  * `ids` — random identifiers for stored artwork files (`rand`);
  * `media` — medium kinds, their labels, and the keys media are filed under;
  * `paths` — the catalogue layout, glob patterns, and reading a record's
    identifier off its path;
  * `artwork` — the artwork record of a release, and the thumbnail job as a
    step function that the importer drives;
  * `repositories` — search patterns and the rows that repositories insert;
  * `record_text` — parsing a record file's text as TOML (`toml`);
  * `models`, `readers`, `tag`, `text` — row types, reader errors, taglib
    types, and string helpers.
* `app/` is the importer program: argument handling, file system, glob and
  TOML reading, the database (diesel) and the thread pool.
* `tests/` exercise the library.
