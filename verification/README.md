# cooplan_definition_consumer

A consumer of catalogue definitions served over AMQP.

- `src/` is the verified library: the failure type, the consumer settings, the
  request for a definition by version (its exact bytes), the names of the request
  dispatches, and the decisions of a dispatch's round as a state machine
  (`storage::definition_request_dispatch`) with its laws.
- `app/` runs the asynchronous edges: reading files, the identity provider, the broker,
  the state tracker and the spawned tasks. It drives the state machine of `src/`.
