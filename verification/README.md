# happy

Control of Happylight-compatible RGB LED strips over Bluetooth LE, with the
deciding part verified by Verus.

- `src/packets.rs`: the power, colour and mode commands, byte for byte.
- `src/modes.rs`: the table of the strip's built-in modes.
- `src/controller.rs`: the controller's connection state and the writes it asks for.
- `src/scanner.rs`: what a scan reports, and the choice of peripheral and characteristic.
- `src/screen_sync.rs`: the colour derived from a captured screen frame and the
  decisions of the synchronisation loops.
- `app/`: the desktop program (Bluetooth, screen capture, the web frontend's commands).
