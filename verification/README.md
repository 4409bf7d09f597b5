# rp2040_kbd

Firmware for a split rp2040 keyboard (a lily58), with its logic written in
Verus and proved against its specifications.

## Layout

- `src/` is the verified library:
  - `matrix`: key coordinates and the one-byte wire format between halves.
  - `keycodes`, `hid`: HID usage codes and the boot keyboard report.
  - `keymap`, `layout`, `mapping`: the report state machine and what every
    key does on every layer, as spec tables and as code proved equal to them.
  - `keyboard`, `right_half`: per-key state of both halves, column scans,
    debouncing and the rotary encoder.
  - `debounce`, `time`, `runtime`: contact debouncing, timer arithmetic, the
    sleep countdown and the scan loop counter.
  - `queue`, `ring_buffer`, `spsc`: fixed-capacity FIFO queues and the slot
    arithmetic of the queue between the two cores.
  - `admin`: what the display core does with each message, the power LED and
    the commands typed on the debug serial line.
  - `oled`: the display layout and which of its lines must be drawn again.
  - `usb_serial`, `split_serial`: chunked writes to the USB serial port and
    the messages of the wire between the halves.
- `app/` is the firmware around it: board bring-up, pins, the display
  driver, USB, the shared-memory queue between the cores and the two cores'
  loops.
- `tests/` exercise the library on concrete values.
