# screencast

Peer-to-peer screen sharing over WebRTC: a signalling server that relays
messages between connected peers, and a client that captures the screen,
encodes it as H.264, sends it to its peers, and shows what peers send.

- `src/` is the verified library: the server's peer registry and routing
  rule (`peers`), the messages (`model`), the client's signalling state
  (`signalling`), its reconnection policy (`reconnect`), the cutting of the
  received stream into NAL units (`nal`), the byte queues read by the
  encoders' and receivers' readers (`reader`), the choice of what to capture
  and the YUV 4:2:0 layout (`capture`), the codec decisions (`codecs`), the
  user interface's state (`gui`) and the errors (`errors`).
- `app/` runs them: `signal` serves the signalling server with axum, `client`
  joins it with WebRTC and shows the window.
