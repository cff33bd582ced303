# gcp_rapid

An object store on Google Cloud Storage zonal buckets (Rapid storage class),
written in Verus. Zonal buckets hold appendable objects, which are opened,
written to incrementally, flushed, paused, resumed and finalized, and which are
reached over the gRPC Storage v2 API only.

* `src/` is the verified library. It makes the requests and interprets the
  answers, and does no input or output. Each function states in its contract
  what it returns; the proof functions named `law_*` state what holds across
  functions, such as that a read gives back what was put or appended, and that a
  flush reports the answer to its own message. Appending is covered from the
  start of an object on: a writer counts from zero, also where it resumes an
  object, and does not move to the end of data that is already there.
* `tests/` runs the library, against a service kept in memory among others.
* `app/` is ordinary Rust around the library: it obtains tokens, holds the
  connection, sends the requests and receives the answers.

What the library has from the crates `bytes`, `chrono`, `http` and `tonic` is
declared in `src/payload.rs`, `src/time.rs` and `src/transport.rs`, with the
contracts that are believed of it.
