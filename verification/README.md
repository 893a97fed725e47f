# api

A service that deploys bundles (static sites and Node.js applications) to
nodes. `src/` is the library, verified with Verus; `app/` is the program that
serves it over HTTP and talks to the database, the object storage, the cache
and the nodes.

## Library (`src/`)

- `ids`: the hyphenated text of a UUID, its parsing, and base64url.
- `uuid_as_base64`: identifiers as they travel in queries and bodies.
- `cache`: keys of cached records, the commands that read and write the
  deployment index and the node records, what their replies mean, and a model
  of the cache on which reading back what was written is proved.
- `deploy`: archive keys, the request that hands a bundle to a node, and the
  bounded retries of that request.
- `content`: JSON and zip request bodies.
- `auth`: the node manager password and the choice of access token.
- `keys`: loading the public key that checks access tokens.
- `errors`: messages, HTTP statuses and codes of every error.
- `storage`: region and bucket decisions of the object storage set-up.
- `types`, `text`: the values exchanged and text comparisons.

## Program (`app/`)

`main.rs` reads the command line and starts the server (`server.rs`); the
routes (`routes/`) read requests (`extract.rs`), run the cache commands
(`cache.rs`), hand bundles to nodes (`deploy.rs`) and keep records in the
database and the object storage (`core.rs`, `storage.rs`).
