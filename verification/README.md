# doorlock

Verified control logic of a Bluetooth door lock and its cloud services.

- `src/` is the verified library (Verus):
  - `motor`: speed levels and motor commands decoded from the GATT control
    value; the H-bridge pin model, its full-step drive sequence and the motor
    task's cycle.
  - `lock`: the lock mechanism (step count kept in range by a type invariant),
    lock/unlock/speed/step commands.
  - `firmware`: the Bluetooth advertising payload (built in a `heapless`
    buffer), the scan response, and the interrupt number the fault handler
    reports.
  - `api`: routing of web requests, command topic, response bodies.
  - `server`: the MQTT subscription topic, reading CloudEvents (through
    `cloudevents-sdk`), and when a report changes the stored lock state.
  - `gateway`: the HTTP report of the lock state and how its answer is read.
  - `device`: GATT writes for each lock operation, characteristic lookup,
    reading the lock state back, connection decisions.
  - `text`: string equality and decimal notation.
- `tests/` exercises the library on concrete values.
- `app/` holds the host programs (`api` and `gateway` subcommands): argument
  handling, MQTT, HTTP and Bluetooth I/O, templates and JSON.
