# mavlink_to_kafka

Reads MAVLink messages from one source and publishes each as JSON to the Kafka
topic `<prefix>.<MESSAGE_NAME>`, keyed by the sender's system ID; optionally
relays commands from a Kafka topic back to the MAVLink connection.

- `src/` is the verified library (Verus): the configuration and its defaults,
  the choice of configuration file, the property maps and the librdkafka client
  settings built from them, topic names, partition keys and the JSON payload
  framing, and the decisions of the reader, main and command loops.
- `app/` is the program around it: configuration loading with figment, the
  MAVLink connection, the Kafka producer and consumer, and the async loops.
- `tests/` runs the library on concrete values.
