# tokio_tquic

An async QUIC API over the TQUIC engine, with the part that decides and computes verified in
[Verus](https://github.com/verus-lang/verus).

TQUIC is driven by callbacks and its types are `!Send`, so each endpoint owns a thread on which
the engine runs: the bridge thread. The async types (`Endpoint`, `Connection`, `SendStream`,
`RecvStream`) are handles that send commands to that thread and wait for its answers.

## Layout

- `src/` is the verified library. It does no I/O: every operation is a series of steps from plain
  values to plain values.
  - `endpoint`, `incoming`, `connection`, `send_stream`, `recv_stream`: the operations of the API,
    step by step.
  - `command`: the commands, what each asks of the engine, and what the engine's answers come to.
  - `bridge`: the state that the async side and the bridge thread share, and how the engine's
    events change it.
  - `worker`: how the bridge thread starts, what it does with each event, and how it sends a batch
    of packets.
  - `config`, `ext`: configurations, and what the engine is configured with.
  - `error`, `engine`, `types`, `addr`, `time`, `text`: errors, engine values, identifiers,
    addresses, spans of time, and their texts.
  - `buffer`, `registry`: the byte buffers and the concurrent map that the library uses, from the
    `bytes` and `dashmap` crates. What is taken on trust of these two crates stands here and
    nowhere else; of the standard library, `text` trusts how it decodes UTF-8.
  - `laws`: what holds over any number of steps, as proof functions.
- `tests/` runs the library, with a simple engine in the place of TQUIC.
- `app/` is the async API itself: sockets, the bridge thread, channels, wakers and the calls into
  TQUIC around the library.

## How a caller uses the library

The shared state is a `BridgeHandle`, which the caller keeps behind a lock. It holds the incoming
connections and the peer's streams that nobody has accepted yet, and what the endpoint's statistics
count. For each connection that was ever created it has a numbered slot; the caller keeps the wakers
and the wake-up signals of a connection under the same number. A function that needs something done
yields it: a `BridgeCommand` to be sent, an `EngineCall` to be made, a `SignalRef` to be waited for
or given, a slot to be woken.
