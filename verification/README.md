# sandbox_control

Verified core of a sandbox runtime's host-controlled networking and of its portable prepared
root filesystems.

- `src/network/`: the control protocol between a sandbox runtime and the host that authorizes
  its outbound traffic. Frames and messages, the runtime's client and session, the host's
  endpoint, and what holds of a session and of an endpoint over their whole lives.
- `src/image/`: what binds a prepared root filesystem to the image it was made from, what an
  export needs, in which order an import takes a root over, the sparse copy of its bytes, and
  what an import leaves behind in a cache.
- `app/`: sockets, files, compression and serialized forms around the library.

The library holds decisions only. A state machine is told what happened and answers with what
to do next; `app/` does it. What the library takes from other crates on trust is a handful of
functions in `src/image/hashing.rs` and `src/image/manifest.rs`, each with a contract of its own.
