# library

A small MQTT-style publish/subscribe system, verified with Verus.

- `src/message_processor.rs`: the messages exchanged between clients and the broker.
- `src/input.rs`: console commands and the step a console reader takes on each line.
- `src/protocol/mqtt/mqtt_broker.rs`: the broker's subscription table and clients,
  what it delivers on each request, and the per-connection step of the broker.
- `src/protocol/mqtt/mqtt_client.rs`: the client's wait for acknowledgements, the
  verdict on a ping, and the report of messages from the broker.
- `app/`: the TCP, console and channel plumbing (tokio), the bincode wire format,
  and the `broker` / `client` program (`mqtt broker` or `mqtt client`).
