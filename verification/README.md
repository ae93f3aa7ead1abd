# applyforge

A job-application tracker: an HTTP service (registration, login, storing and
listing a user's job applications) and a browser client (the list of
applications, per-status counts, the login/registration form).

- `src/` is the verified library. It decides what the service answers and
  stores (`auth`, `jobs`), hashes and checks passwords with Argon2
  (`password`), keeps the client's state (`tracker`, `login_form`), counts
  applications by status (`analytics`), and formats statuses, dates and
  addresses (`status`, `text`, `client`).
- `app/` runs it: the actix-web service over PostgreSQL (`main.rs`) and the
  Yew client (`frontend.rs`), with serde forms of the records (`models.rs`).
- `tests/` exercises the library on concrete values.
