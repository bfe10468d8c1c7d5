# protocol

A framework for service-to-service communication over Unix domain sockets, TCP,
TLS and gRPC: length-prefixed messages, connection handling for servers and
clients, pooling with a circuit breaker, service discovery, authentication, rate
limiting, streaming, webhooks and metrics.

## Layout

- `src/` is the library, verified with Verus. It decides: how bytes are framed,
  what a connection does next, who is let in, which client a call goes to, when a
  circuit opens. A connection, a client and a pool are state machines. A step
  takes what happened and gives the actions that are to be performed.
- `app/` performs the actions: it opens sockets, waits for timers, spawns tasks
  and turns messages into JSON and back.
- `tests/` run the library from outside.

## Reading the contracts

Most types have a mathematical model, their view, and the contracts speak of
views. A few are plain values that stand for themselves, and what is behind a
trait or shared between owners is spoken of by spec functions of its own.
Public proof functions whose names begin with `law_` state what holds across
functions: that a read gives back what was written (`wire`), that a call gives
back what the service responded and a stream comes to its end (`exchange`), that
no window lets in more than its share (`window`), that a failing service is
spared (`pool`), and more.

Time is an argument wherever a decision depends on it: `check_at(client, now)`
is exact, and `check(client)` is `check_at` at a reading of the limiter's clock.
