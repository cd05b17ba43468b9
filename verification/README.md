# vpn_api

A service that manages WireGuard VPN networks: dns servers, keypairs, servers,
clients and the addresses they use, served over GraphQL and stored in PostgreSQL.

- `src/` is the library, verified with Verus: IPv4 addresses and network ranges,
  decimal text, the registration of a new client or server as a state machine,
  the records written on create, update and delete, the values of the WireGuard
  configurations and their rendering, logins and the claims of their tokens.
  Calls into `ipaddress`, `bcrypt`, `chrono` and `handlebars` stand behind a few
  trusted wrappers whose contracts are documented where they are declared.
- `tests/` runs the library on concrete values.
- `app/` is the server around it: HTTP, GraphQL resolvers, the database, JWTs
  and the `wg` command.
