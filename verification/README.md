# vrcx_bir

The logic of a lightweight VRChat companion client, written in Verus: every
function of the library carries a `requires`/`ensures` contract that Verus proves.

## Layout

- `src/` — the verified library.
  - `text`, `json`, `json_text`, `table`, `decode`: strings, a JSON model with views,
    JSON text read and written by `serde_json`, a
    string-keyed table, and strict record decoding.
  - `websocket`: pipeline messages and events, and what each received frame means.
  - `store`: the client state and the reducer that applies pipeline events to it,
    naming the cache writes they call for.
  - `models`: users, worlds, friends and favorites.
  - `session`: sign-in headers, two-factor methods, cookies, HTTP status handling.
  - `screen_overlay`: which events become on-screen toasts, what they say, which
    toasts show.
  - `vr_overlay`: notification routing and wrist-display settings.
  - `ui`: labels, sections, ordering, summaries and result cards, and `ui::client`,
    the client's message handler: a step from state and message to the next state
    and the outside work to do, stated by the spec function `step`.
- `tests/` — tests of the library on concrete values.
- `app/` — the client loop that carries out the handler's work on its own data
  (`app/client.rs`), and the parts that talk to the outside world (HTTP, websocket, database,
  keyring, settings files, UDP) and the measurements kept as floating point.
