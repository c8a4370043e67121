# rrconsumer

A consumer of financial tasks from a RabbitMQ stream: each task message
(protobuf or JSON) asks for accounts or transfers to be created or looked up
in a TigerBeetle ledger, and each gets a response on the response stream.

The decisions are a Verus library with contracts, proved by Verus:

- `src/error.rs`, `src/kinds.rs`: error kinds, their retry policy, error
  reports and the search for a kind in a report's cause chain.
- `src/worker.rs`, `src/task.rs`: the task messages, 128-bit ids in two
  halves, content types, and reading a message's envelope.
- `src/handlers.rs`: what each task becomes: a refusal, a failure, or a
  ledger request (`process_task`).
- `src/responses.rs`: the response to a task once the ledger has replied
  (`finish_task`).
- `src/config.rs`: the settings, from the values of environment variables.
- `src/processor.rs`: the reports of the message loop's failed stages.
- `src/laws.rs`: properties that span several functions.

`app/` is the program around it: it reads the environment and the stream,
decodes message bodies, calls the ledger client, and sends the responses.
