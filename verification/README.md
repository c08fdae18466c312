# capsolver

A service that solves Cloudflare Turnstile and "I'm Under Attack Mode"
challenges with a pool of headless Chrome processes driven over the Chrome
DevTools Protocol, exposed as a small HTTP API (`/health`, `/turnstile`, `/iuam`).

The library in `src/` is written in Verus and verified:

- `browser/pool.rs` — the pool's slot bookkeeping (a FIFO queue of idle slots and
  the handed-out slots keyed by id; a new pool gives every slot its own id), with
  proofs that acquiring and releasing conserve the pool's capacity; the parameters
  of the page-creation commands.
- `browser/cdp.rs` — DevTools commands and replies: building commands, routing
  what arrives on the connection, reading each kind of reply, and each round of
  the wait for a page to load.
- `browser/process.rs` — Chrome's command line, its DevTools endpoint, and the
  choice of processes to restart.
- `solvers/` — sitekey and URL checks, the page that hosts the Turnstile widget
  (with proofs that attribute values are escaped and decode back unchanged),
  request interception, token polling, the steps of each solve (with a proof that
  interception, once on, is stopped exactly once), and the clearance solver's
  cookie scan and polling clock.
- `config.rs` — the configuration read from environment values.
- `api/handlers.rs` — the bodies of the HTTP interface, the steps of serving a
  request (with a proof that an acquired slot is given back exactly once), and
  the answer to each outcome.
- `json.rs`, `encoding.rs`, `text.rs`, `duration.rs` — the JSON model, JSON string
  literals and base64, string helpers, and time spans.

`app/` holds the unverified program around it: the WebSocket connection, the
Chrome processes, the sleeps between polls, and the HTTP server.

Where the documentation and the code it came with disagree, the library follows
the documentation: the configuration defaults (port 8080, four processes of five
slots, the Chrome sandbox on, a 120-second solve timeout), timeouts given in whole
seconds in the environment, and the clearance solver's 29-second default timeout.
The old unit tests that expected a 120-second clearance timeout are therefore not
kept; the integration tests that expect 29 seconds are.
