# auto_pool

A pool of caller-supplied objects. Checkout hands out an available object
(the last one returned, or one at a random index), and returning it makes it
available again; the pool never creates replacement objects.

- `src/` is the verified core, checked by Verus:
  - `pool` holds the available objects and the policy, and proves that a
    checkout hands out exactly one available object and keeps the others,
    that LIFO hands out the object returned last, and that draining the pool
    hands out every object once;
  - `checkout` decides each step of a checkout that may wait (lock attempt,
    take, wait, give up) from a budget fixed when it begins;
  - `config` is the checkout policy and its default;
  - `duration` is what the pool reads of `std::time::Duration`.
- `app/` is the thread-safe pool around that core: the storage mutex and
  condition variable (parking_lot), async notifications (event-listener) and
  timers (smol), the clock, and `PoolObject`, which returns its object to the
  pool when it drops.
