# triponics

Controller of a small hydroponics/aeroponics rig on a Raspberry Pi: a relay
board switching sockets, dosing pumps, a sprayer and a grow light, a water
quality sensor, and an MQTT link to Home Assistant.

- `src/` is the verified library (Verus): the relay model and the managers'
  rules (spraying schedule, dosing, grow light), the water quality sensor's
  register reading, MQTT topics and subscriptions, the Home Assistant
  discovery records, the decisions of the MQTT client's restart and publishing
  loops, the `hh:mm:ss.sss` text form of configuration times, and file paths.
- `app/` is the program around it: bevy systems, GPIO, Modbus, the MQTT client,
  JSON encoding, the SQLite offline cache, configuration and state files, and
  logging.
- `tests/` run the library on concrete values.
