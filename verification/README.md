# rusty_fridge

The decision logic of a fridge thermostat that reads temperatures and writes its
switch state over MQTT, written in Verus and verified.

- `src/controller.rs`: operating modes and their default.
- `src/modes.rs`: output and input modes, chosen by name.
- `src/address.rs`: the broker's `host:port` address, port numbers, topic base names.
- `src/messages.rs`: publications, subscriptions and the work of the connection task.
- `src/actors/`: per-actor decisions: when the output switches and what a temperature
  message carries (`io`), when the default configuration is published (`config`), and
  which subscriber gets which topic (`mqtt`).
- `app/`: the program: command line, broker connection, actors, serde and the PID
  controller, which works in floating point.
