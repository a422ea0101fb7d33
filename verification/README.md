# scap: screen capture on Linux

The rules of a screen capture engine on top of PipeWire, written and proved in
Verus.

- `src/format.rs`, `src/frame.rs`: which pixel formats the engine offers, and
  the frames it makes of them. It offers exactly what it can decode.
- `src/negotiation.rs`: what a stream asks of its peer, and how the format it
  settles on is followed.
- `src/process.rs`: from a dequeued buffer to a frame in the consumer's channel.
- `src/worker.rs`: the worker thread, task by task.
- `src/capturer.rs`: how a capturer is launched, started and stopped.
- `src/control.rs`: the state and the exit flag that all of these share.
- `src/channel.rs`: the wall clock and the channel of the standard library,
  whose behaviour is taken on trust.
- `src/laws.rs`: what holds of the engine as a whole.
- `app/`: the engine itself, which talks to D-Bus and PipeWire. The dialogue
  with the desktop's screencast portal is left to an implementation of
  `ScreenCastPortal`.
