# orx_concurrent_bag

A grow-only concurrent bag. Writers reserve positions with an atomic
counter and, before writing, ask the bag's state for a permit: write at once,
grow the storage first, or wait for another writer's growth.

- `src/` is the verified library (Verus): the bag's concurrent state
  (`ConcurrentBagState`), the write-permit decisions with their laws
  (`permit.rs`), and the fill strategies (`mem_fill.rs`).
- `app/` holds `ConcurrentBag` itself. It wraps `PinnedConcurrentCol` from
  `orx-pinned-concurrent-col`, whose write and read methods are `unsafe` and
  whose state must implement the outside trait `ConcurrentState` (one of its
  methods returns a function pointer); the implementation there forwards
  every decision to the verified state.
- `tests/` exercises the library.
