# tunnelproxy-edge

The public edge of a reverse tunnel, written in Verus: what it accepts, whom it serves,
how it routes and what it reports, with the contracts that Verus proves of it.

- `src/` is the library. Each module states its decisions as functions from plain values
  to plain values, or as small state machines: an event goes in, the next step comes out.
  The laws that span several functions are public proof functions at the end of the module
  they belong to.
- `tests/` run the library from outside.
- `app/` holds the sockets, timers and TLS around the library.

Where the library leans on another crate (`http` through `hyper`, `base64`, `sha1`,
`getrandom`, `serde_json`, `rustls`, `rustls-pemfile`, `tokio`), the call stands in a small
function whose doc comment says what is believed of it.

| Part | Modules |
| --- | --- |
| Names, time, text | `clock`, `net`, `names`, `bytes`, `text`, `text_order` |
| Bounds | `admission`, `http_rate_limit`, `shutdown` |
| HTTPS ingress | `http_*` |
| Raw ingress and forwarding | `raw_ingress`, `forward` |
| Agents | `protocol`, `agent_transport`, `edge_session`, `ingress_stream`, `router`, `multiplex`, `multiplex_runtime` |
| Operations endpoint | `request_history`, `history_page`, `metrics`, `operations`, `operations_runtime` |
| The process | `cli_flags`, `cli`, `cli_plan`, `cli_start`, `runtime`, `supervision`, `snapshot_runtime` |
