# rd_agent

The agent of a remote desktop: it pairs a device with a server, waits for
sessions over a signaling connection, sends the screen as H.264 over WebRTC, and
injects the input that comes back.

`src/` is the library. It holds what the agent decides and computes, with
contracts that Verus proves: the signaling session and its reconnects, pairing,
the clipboard and control channels, input events and the keys that are held,
capture sizes, pixel conversion, the video pipeline, and the two encoders. The
properties that span several functions are the `law_` proof functions beside
them. The calls into `openh264`, `yuv`, `webrtc` and `serde_json` stand behind a few
trusted functions, each with a comment that says what is taken for granted.

`app/` is the program around it: sockets, threads, devices, files and the clock.
It carries out what the library decides and reports what came of it.

`tests/` runs the library on concrete values.

## Environment

- `RD_SERVER_URL`: the server to pair with (default `http://127.0.0.1:8080`)
- `RD_AGENT_CONFIG`: where the pairing is kept
- `RD_VIDEO_SOURCE`: `testpattern` replaces the screen by a moving pattern
- `RD_VIDEO_ENCODER`: `openh264` keeps the hardware encoder out
