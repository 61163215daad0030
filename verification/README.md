# hive_send

A library for sending files between devices on a local network, with its logic
verified by Verus.

- `src/` is the verified library: the service state (devices, requests, files to
  send and receive) and every operation on it, the request handlers of the HTTP
  API as functions from state and request to state and reply, the download
  decisions (which files to fetch, which chunk comes next, when to retry, speed
  statistics), the parsing and formatting of headers and URLs, path listings,
  fingerprints and random identifiers. `src/laws.rs` states properties that span
  several operations.
- `app/` runs it: the HTTPS server (axum), the client (reqwest), the download
  loop (tokio), file-system access, certificate files, and the asynchronous
  `TransferService` interface.
- `tests/` exercises the library on concrete values.
