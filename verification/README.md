# stomp_client

A client for the STOMP messaging protocol, version 1.2, with its decisions verified by Verus.

- `src/` is the library. `handshake` decides whether the server's first reply establishes a
  session. `event_loop` says what happens to the subscriptions at each event, what is delivered
  to whom, and what is sent to the server. `session` is the client's handle on a running session.
  `table` keeps the subscribers by their ids. `frames` holds the frames as plain values and their
  wire form, `channel` the channels between the tasks, with a log of what each was handed, `error`
  and `text` the words that failures are reported in. `laws` states what holds of a session as a
  whole.
- `app/` runs a session on an asynchronous runtime: it moves bytes and events, and asks the
  library what to do with them.
- `tests/` exercises the library with the real parser and the real channels.

Frames are parsed and built by `stomp_parser`, and messages travel on the channels of `tokio`.
What the library takes on trust about them is stated where it calls them.
