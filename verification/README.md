# av_contrib

A contributor service for live media. It takes in byte streams, media access units, MPEG transport
streams, RTMP and multichannel audio, packages them as low-latency parts, protects them with forward
error correction, and publishes them into a mesh of caches and to a relay session.

The logic is a Verus library: its functions state what they do in `requires` and `ensures`, and
Verus proves it of every one but the wrappers, whose bodies it does not read.

- `src/fmp4_bridge` cuts access units into fragmented MP4 parts.
- `src/audio_epoch_hls` packages recovered audio groups, byte for byte or boxed.
- `src/service` holds the service's decisions: routing, intake, forwarding, relay lanes, sessions,
  telemetry, health, status and metrics.
- `src/probe` holds the decisions of the probe that publishes a known signal and checks what arrives.
- `src/sender.rs` holds those of the command-line senders, and `src/formats.rs` tells codecs apart.
- `app` is the program around the library: arguments, sockets, servers and the clock's edge. It
  listens for RIST and RTMP, and refuses SRT.
- `tests` run the library, with the outside crates linked.

Calls into outside crates stand behind small wrappers whose doc comments say what is claimed of the
outside function. Results that take pages to state have a name, a spec function without a body;
contracts speak of them by that name.
