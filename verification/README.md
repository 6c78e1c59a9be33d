# rsipstack

A SIP stack whose protocol logic is verified with Verus.

- `src/` is the library: messages and their headers, the transport layer's
  choice of connections, transactions with their timers, dialogs and calls. It
  performs no I/O. Where something has to be done outside (find an address, open
  a connection, write a message, wait), a function returns a step that says so,
  and a second function takes the outcome. Every function states what it returns
  and changes; the functions `law_*` state what holds across functions.
- `app/` runs the library on tokio: sockets, TLS, the clock, and the tasks that
  carry the steps out. The wire form of messages and the answer to an
  authentication challenge are supplied by the user through two traits.
- `tests/` runs the library on concrete messages, with a simulated wire and
  clock.

| Module | What it holds |
| --- | --- |
| `sip` | methods, status codes, URIs, headers, messages, Session-ID |
| `transport` | addresses, connections, the connection registry, TLS settings |
| `transaction` | the endpoint, transaction keys, timers, the transaction machine |
| `dialog` | dialogs, their requests and responses, calls in and out, snapshots |
| `maps` | what is believed of the concurrent maps |
| `text`, `lists` | characters and sequences |
