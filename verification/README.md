# govee_ble

Bluetooth LE packets of Govee devices, verified with Verus.

- `src/` is the library. `frame` pads and checksums, `layout` and `param` say
  how packets are made of bytes, `humidifier`, `power`, `scene`, `music` and
  `rice_cooker` hold the packets, `manager` picks codecs by SKU, `packet` holds
  raw bytes and their Base64 text, and `undoc` the decisions of the account API
  command. What is taken on trust stands in `base64` (two calls of
  `data_encoding`) and `formatting` (`core::fmt` and type ids, of which nothing
  is claimed).
- `app/` is ordinary Rust around it: the shared manager, JSON, the command line.
- `tests/` runs the library on concrete packets.
