# arra-export

The verified core of the Arra export service, a small HTTP API that starts
export jobs on an Arra Oracle instance, keeps a history of them and proxies
their artifacts.

- `src/` is the library, checked by Verus: configuration and Oracle URL
  validation (`config`), IP address classes (`net`), the Oracle client's
  decisions and reply shaping (`oracle_client`), the export job history
  (`export`), the REST handlers' error answers and download headers (`app`),
  and character helpers (`text`).
- `app/` is the server around it: environment reading, the axum router,
  the reqwest calls, DNS resolution and the JSON forms of the records.
- `tests/` exercises the library on concrete values.
