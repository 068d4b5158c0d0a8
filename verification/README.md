# lava_flow

Topology-aware local channels and CPU/GPU memory allocation, with its rules stated as contracts and proved.

- `src/` is the verified library: identifier and hostname validation and the scope derived
  from two process locations (`types`), allocation limits, the fallback chain and
  shared-memory naming (`memory`), the Vulkan version, device, queue-family and memory-type
  decisions (`memory::vulkan`), and the local channel protocol (`channel::local`): its byte
  layout (`wire`), the shared-secret handshake as two state machines (`handshake`), the
  envelope reader (`envelope`), endpoint paths and the listener setup (`endpoint`), and the
  access rights of named-pipe clients (`pipe_access`). The builders (`channel`) turn options
  into a plan and decide what a controlled build does after each attempt.
- `app/` moves the bytes: Unix domain sockets with descriptor passing, POSIX shared memory,
  the process environment, JSON metadata through serde, and the blocking build loops. It
  calls the library for every decision.
- `tests/` exercises the library on concrete values.

The library's CPU buffer owns its bytes. A local send therefore copies the payload into a fresh
shared-memory region, and a receive copies the mapped bytes back into an owned buffer: the
transfer is not zero-copy, and a receiver does not see later writes of the sender. GPU frames
are refused by the Unix transport in `app/`, as no Vulkan driver binding is part of this crate.
