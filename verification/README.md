# ffxiv_versions

Release history of FINAL FANTASY XIV's regional game clients (Global, CN, KR, TW) and the
rules the release data is checked with, as a library verified with Verus.

- `src/` — the library. Game versions and their text form (`game_version`), calendar dates
  and times (`date`), release records and the text of release dates (`version`,
  `release_date_format`), the regional data files (`data_file`), and the checks: the data
  file's own rules (`basic_check`), the versions Thaliak has seen (`thaliak`), and the regional
  update notices, with one reader per region (`update_notice`). `text`, `urls`, `patterns` and
  `html` hold the text helpers and the calls into `url`, `regex` and `scraper`; `date` holds
  the calls into `chrono`.
- `app/` — the command-line programs: `re-export` converts the data files between CSV and
  JSON, `sanity-check` fetches Thaliak's versions and the update notices and runs the checks.
  File and network access, serde and the command line live here.
- `tests/` — tests of the library.
