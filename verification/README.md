# async_flow

Primitives for flow-based programming: ports, message-count constraints
(cardinalities), port identifiers, structural system definitions and their
validation, and a Tokio backend whose port logic carries machine-checked proofs.

## Layout

- `src/io`: cardinalities, port events and states, the connection and
  scheduler traits.
- `src/error`: receive, send and crate-wide errors.
- `src/model`: port identifiers and their allocation, sorted port maps and
  sets, port descriptors, block metadata, system definitions, the validation
  model, and the system builder.
- `src/tokio`: runtime ports (`Inputs`, `Outputs`, `Channel`), message quotas
  and shared fan-in budgets, merged inputs, the projection of a merged input's
  bounds onto its producers, system preparation, and endpoint binding.
- `src/bounded.rs`: plain bounded channels.
- `src/laws.rs`: properties that relate several operations.
- `app/`: the asynchronous side (receiving and sending with waiting, systems of
  Tokio tasks, standard input and output blocks, schedulers), error types with
  messages, and serialized port identifiers.
- `tests/`: tests of the library.

Every operation that waits is split: the library decides what a receive or a
send means for a given event or counter, and `app/` performs the waiting.
