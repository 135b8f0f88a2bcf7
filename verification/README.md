# eventstore

Client commands for an EventStore database over gRPC.

- `src/` is the verified library. A command is put together by builder methods
  and turned into the call that carries it out (`es6::commands`); a reply is
  checked and turned into a value (`es6::commands::convert`). What holds of the
  whole stands in `es6::laws`. Identifiers and their texts are in `ids`, event
  metadata in `metadata`.
- `app/` sends the calls with tonic and hands the replies back. How messages are
  written to the wire is left to a codec. The credentials and the wish for the
  master travel as `Terms` in the extensions of each request: the channel needs an
  interceptor that reads them and presents them to the server, else they are not
  sent. When the connection of a catch-up subscription is lost, it is opened anew
  until that succeeds or the server answers with an error. A status counts as a
  lost connection where it has a source: a codec should make its own statuses
  without one.
- `tests/` runs the library.
