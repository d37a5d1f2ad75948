# simchat

A small chat service: a server that keeps registered users in a sled store
and answers a version route, and a browser client with chat windows, a week
calendar and a login form.

- `src/` is the verified library (Verus):
  - `shared/`: the request and session types both sides use.
  - `server/`: configuration checks, the error type with its text and HTTP
    status, the user store (`model/`) with the byte form of its records
    (`model/record.rs`) and the sled calls it makes (`model/kv.rs`).
  - `frontend/`: building JSON requests (`fetch.rs`), chat and calendar
    state, the registration checks of the login form, and the web socket's
    handler registry.
  - `text.rs`: decimal rendering.
- `app/` is the server program (configuration file, Redis, HTTP serving)
  and, under `app/frontend/`, the browser program's yew components, which
  are the program when it is built for `wasm32`.
- `tests/` runs the library against real sled trees and bincode.
