# narwhal_worker

The worker of a primary-worker mempool, verified with Verus.

A worker takes transactions from clients, assembles them into batches, shares the batches
with the workers of the other authorities, and reports the digests to its primary. This
library holds what such a worker decides:

- `worker`, `task`: which channels it makes and which tasks it spawns when it boots, with
  what each task is given, and in which order the handles come back;
- `wiring`: what holds of the booted worker as a whole, such as that every channel has
  exactly one reader;
- `address`, `cache`: where the worker is known, and on which addresses it listens;
- `receiver`: how a listener binds, serves and stops;
- `transactions`, `worker_messages`, `primary_messages`: where each request goes, and what
  is answered (`status`), with the buffers in which requests travel (`payload`).

`app/` runs it all: it makes the channels, spawns the tasks and serves the requests. The
parts of the node around the worker come in through one trait, `Node`.

Trusted are three calls into other crates: `Multiaddr::replace`, `Bytes::from` and the
copying of a `Bytes` into a vector. Their contracts stand in `address` and `payload`.
