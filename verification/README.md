# runng

A high-level wrapper around NNG (nanomsg-next-gen), the broker-less
messaging library, whose logic is proved correct with Verus.

## Layout

- `src/` — the verified library: error numbers and their meaning
  (`result`, `sys`), messages and message builders (`msg`, `msgbuilder`),
  memory and strings handed to and from NNG (`mem`), socket handles, flags
  and protocols (`socket`, `protocol`, `factory`), dialers, listeners,
  contexts and pipes, the byte channel of the Thrift transport
  (`nng_channel`), and the state machines that decide what each
  asynchronous operation does next (`asyncio`).  The public functions carry
  contracts (small private helpers and trait plumbing may not); the laws
  that span functions, such as first-come-first-served delivery of the
  work queue over any mix of arrivals and requests, are proof functions
  beside them.
- `app/` — the native side, not seen by Verus: declarations of the NNG C
  functions, the calls into them, factories whose sockets close when their
  last clone is dropped, futures-based asynchronous handles that run the library's
  state machines, byte streams, statistics, transports and
  the Thrift protocols.
- `tests/` — tests of the library on concrete values.

Calls that open sockets, dialers, listeners and contexts take the native
call as a closure, so that the library decides what the outcome means and
the contract ties the result to what the call returned.
