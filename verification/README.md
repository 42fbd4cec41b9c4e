# standardnotes-rs

The logic of a synchronisation server for Standard Notes, verified with Verus.

- `src/` is the verified library: the request and response models and their
  conversions (`models`), the bearer-token guard (`AuthUser::from_request`, which is `AuthUser::check_header` followed by `AuthUser::from_token`; the server runs these two steps itself so that it reads the token secret only when there is a token to check),
  building and checking JSON Web Tokens through `jsonwebtoken` (`jwt`), the
  handlers' decisions (`api`), and the server's route table (`rocket`).
- `app/` is the server around it: Rocket routes and catchers, the Diesel
  queries against PostgreSQL, reading the token secret from the environment,
  and the serde copies of the models.
- `tests/` runs the library on concrete values.

The token secret is read from `SN_SECRET`.
