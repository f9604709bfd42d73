# uring-rt

The verified core of an experimental `io_uring` async runtime, and the runtime
built around it.

`src/` is the library, checked by Verus:

- `addr` — socket addresses and the bytes of the `sockaddr_storage` the kernel
  reads and fills in; writing an address out and reading it back gives it again.
- `poller` — the completion table: operations registered with a waker handle,
  completions dispatched to them, results collected once.
- `proactor` — the scheduler: live tasks, the ready queue, and the rounds of
  the run loop, one step at a time.
- `ops` — the state machines of the I/O futures.
- `traits` — owned buffers, the slices that partial transfers work on, and the
  progress of `read_exact` / `write_all`.

`app/` is the runtime itself: the ring, the eventfd, the thread-local
proactor that polls the futures, the TCP and UDP types, and a small server.
