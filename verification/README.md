# yamux

Many flow-controlled byte streams over one reliable, ordered connection, with the rules of the
protocol proved in [Verus](https://github.com/verus-lang/verus).

- `src/` is the library. It performs no I/O: each type holds some state, takes note of what has
  happened, and says what is to be done. Every function of whose result anything can be said has a
  contract, and every contract is proved, but for the few statements about other crates in
  `buffer.rs`, `byteorder.rs`, `int_map.rs`, `chunks.rs`, `raw/codec.rs`, `task.rs` and
  `connection.rs` that are marked `external_body`, `assume_specification` or
  `external_type_specification`.
- `app/` is ordinary Rust around the library: sockets, channels, locks and tasks.
- `tests/` runs the library, among other things as two connections that talk to each other in memory.

| Module | What it is about |
| --- | --- |
| `frame`, `frame::header` | messages and their headers on the wire |
| `frame::io`, `frame::buffered` | reading and writing messages as octets come and go |
| `raw` | messages of any kind, and codecs for them |
| `chunks` | data that was received and not read |
| `connection` | the streams of a connection, and what to do about frames and commands |
| `connection::stream`, `connection::substream` | reading from, writing to and closing one stream |
| `connection::laws` | what holds beyond a single operation: flow control, identifiers, closing |
| `connection::{closing, cleanup, command_receivers, control, sender}` | the parties around a connection |
| `stream` | streams that hand items to a sender |
| `pause`, `notify`, `task`, `text`, `harness` | helpers |
