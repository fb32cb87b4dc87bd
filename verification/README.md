# tslink

The verified core of an IoT device-management platform and of its device
SDK, written in Verus.

- `src/` is the library. On the device side: message envelopes, the message
  adapter that routes incoming service calls and replies, transport decisions
  (MQTT subscriptions and endpoint parsing, IPC names and limits, which
  transport a message takes), the client builder and the messages the client
  prepares, and the local discovery registry. On the platform side: topics,
  envelopes, entities, the thing model, shadows, configuration defaults and the
  decisions of the application services and message handlers. `interop.rs`
  states what both sides agree on.
- `tests/` runs the library on concrete values.
- `app/` is the runtime around it: serde wire formats, the MQTT and IPC
  channels, the asynchronous client, the discovery tasks, the event bus and
  configuration loading.
