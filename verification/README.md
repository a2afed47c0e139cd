# USB requests, port I/O and page geometry

A Verus library with the logic of a small x86-64 hobby kernel and its USB driver.
Every function in `src/` carries a contract, and Verus proves it.

- `src/requests/` — USB standard requests and descriptors:
  - `setup.rs` encodes requests as setup packets.
  - `descriptor.rs` decodes descriptor buffers.
  - `endpoint.rs` holds the endpoint bit fields.
  - `request_type.rs` holds the `bmRequestType` constants.
- `src/portio.rs` — the cursor of the port-I/O object. It decides which port each access touches and where the cursor moves.
- `src/memory.rs` — page size and offset constants.
- `app/` — plain Rust around the library: the `in`/`out` and `hlt`/`int` instructions.
- `tests/` — tests on concrete values.

Design notes:
- A HID class descriptor decodes to `DescriptorResult::Hid` and carries its raw body. Its fields, and HID class requests, belong to a HID class driver.
- The data buffer of a request is a type parameter, so any buffer type, including a DMA buffer, can be used.
- The port-I/O cursor is a plain `u16` changed through `&mut self`.
- `Configuration::index_configuration` holds the value that SET_CONFIGURATION takes, as its doc comment says.
