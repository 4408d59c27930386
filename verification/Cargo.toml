[package]
name = "av_contrib"
version = "0.1.0"
edition = "2021"
publish = false

[dependencies]
access-unit = "=0.1.5"
av-hls = "=0.1.0"
av-upload-response = { version = "=0.1.0", features = ["rist-pure"] }
av-web-service = "=0.1.0"
bytes = "=1.12.1"
clap = { version = "=4.6.7", default-features = false, features = ["derive", "env", "error-context", "help", "std", "usage"] }
form_urlencoded = "=1.2.2"
frame-header = "=0.2.2"
h3 = "=0.0.8"
h3-quinn = { version = "=0.0.10", features = ["datagram"] }
http = "=1.5.0"
media-object = "=0.1.1"
mpeg2ts-reader = "=0.18.2"
music-audio-session = "=0.1.2"
playlists = "=0.1.6"
raptorq-datagram-fec = "=0.1.6"
raptorq-fec-transport = "=0.1.4"
relay-session = "=0.1.1"
rist-core = "=0.1.0"
rist-mio = "=0.1.0"
rtmp-ingress = "=0.1.1"
serde_json = "=1.0.154"
socket2 = "=0.6.5"
soundkit = "=0.12.3"
soundkit-flac = "=0.13.3"
soundkit-opus = "=0.13.0"
tokio = { version = "=1.54.1", features = ["full"] }
wavey-boxer = "=0.1.1"
wavey-h264 = "=0.1.1"
webpki-roots = "=1.0.10"
