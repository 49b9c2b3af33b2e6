# interflow

A unified, opinionated interface over platform audio APIs, with its core written in Verus and
proved against its contracts.

## Layout

- `src/` — the verified library:
  - `channel_map` — the `Bitset` trait (channel selections as bit sets) for the unsigned
    integers and for slices of bit sets, with the position laws of slices;
  - `device` — device type flags (`DeviceType`) and channel descriptions;
  - `audio_buffer` — `AudioBuffer`, channels of equally many samples held in an `ndarray`
    array, with interleaving, slicing and the laws of interleaved data;
  - `sample` — sample types and their zero;
  - `stream`, `duplex` — stream handles, duplex errors and the sample rate link between the
    two sides of a duplex stream (an `rtrb` ring buffer);
  - `backends` — the decisions the ALSA, ASIO, CoreAudio, null, PipeWire and WASAPI backends
    make on the values their driver calls return.
- `tests/` — tests of the library on concrete values.
- `app/` — what stays outside the proofs: the null backend's stream thread, floating-point
  timestamps and sample conversion, the resampling duplex callbacks, and the driver traits.
