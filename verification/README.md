# esp32_ble_proxy

An ESP32 firmware that proxies Bluetooth Low Energy devices over MQTT. The
device listens on `esp32-ble-proxy/devices/<uuid>/rpc` for JSON requests
(`add`, `sub`, `get_uuid`, `get_info`, `bluetooth_start_scan`,
`ble_read_characteristic`, `ble_write_characteristic`,
`ble_subscribe_characteristic`) and publishes answers and events on
`esp32-ble-proxy/devices/<uuid>`.

- `src/` is the verified library (Verus): the request state machine, the
  messages, hexadecimal coding of values, MQTT topics and queue handling,
  the device identity, Wi-Fi settings and supervision.
- `app/` is the firmware around it: ESP-IDF, NimBLE, MQTT, NVS, Wi-Fi,
  the tokio loops and the JSON (serde) form of the messages.
- `tests/` runs the library on concrete requests and event sequences.
