# sikola

A classroom service: teachers create classes, students join them, and user
data comes from a Keycloak realm.

- `src/` is the verified library. `model` holds the records (classes,
  memberships) and the specifications of the queries over them; `repos` answers
  those queries; `access` decides each endpoint's request (who may manage,
  join, rename, create); `auth` builds the token key and turns token checks into
  answers; `identity` keeps the public view of users and builds the values sent
  to Keycloak; `error` lists the refusals with their status and text; `laws`
  states and proves the properties that hold across operations.
- `app/` is the HTTP server: routing, database access, token decoding and
  Keycloak calls, each handing plain values to the library.
- `tests/` runs the library on concrete values.
