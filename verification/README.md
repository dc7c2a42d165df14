# thespis_impl

The reference implementation of the thespis actor model: addresses, mailboxes, the strong
and weak life cycle of a mailbox, and remote actors that talk to each other over a
connection.

## Layout

- `src/` is the library, verified with Verus. It holds the decisions and the data of the
  actor system, each function with a contract:
  - `strong_count`, `rx_strong`: the strong count of a mailbox, and when its stream of
    messages ends;
  - `mailbox`: the run of a mailbox as a state machine, and the ids of mailboxes;
  - `actor_info`, `address`, `text`: how actors are named and described;
  - `error`, `addr`, `envelope`, `actor_builder`, `runtime`: errors, the outcomes of sends
    and calls, envelopes, the builder's channel plan and the executors' bookkeeping;
  - `remote`: service and connection ids, the wire format of a message between processes,
    and the routing decisions of a peer.
- `tests/` exercises the library.
- `app/` is the asynchronous side: channels, futures, executors, tracing and serialization.
  It performs what the library decides.
