//! Decisions of the Windows Audio Session API (WASAPI) backend: buffer durations, frame counts,
//! channel maps and the wave format requested from the device. The calls into Windows stay
//! with the caller, which hands the values read from the device to these functions.
use vstd::prelude::*;
use crate::channel_map::Bitset;
use crate::channel_map::true_indices_below;
use crate::channel_map::lemma_true_indices_below;
use crate::device::DeviceType;

verus! {

/// Division rounding toward zero, as Rust's integer division does.
pub open spec fn trunc_div(a: int, b: int) -> int {
    if a >= 0 {
        a / b
    } else {
        -((-a) / b)
    }
}

/// Number of 100-nanosecond units in a second.
pub open spec fn reftimes_per_second() -> int {
    10_000_000
}

/// Duration, in 100-nanosecond units, of `buffer_size` frames at `sample_rate`: the whole
/// seconds that the frames span (rounded toward zero), times the units in a second.
pub fn buffer_size_to_duration(buffer_size: usize, sample_rate: u32) -> (r: i64)
    requires
        sample_rate > 0,
        i64::MIN <= trunc_div(buffer_size as i64 as int, sample_rate as int) * reftimes_per_second()
            <= i64::MAX,
    ensures
        r == trunc_div(buffer_size as i64 as int, sample_rate as int) * reftimes_per_second(),
{
    #[verifier::truncate]
    let frames = buffer_size as i64;
    frames / (sample_rate as i64) * (1_000_000_000 / 100)
}

/// The buffer size a stream asks the device for: the minimum of the preferred range, else its
/// maximum.
pub open spec fn preferred_frame_size(buffer_size_range: (Option<usize>, Option<usize>)) -> Option<
    usize,
> {
    match buffer_size_range.0 {
        Some(v) => Some(v),
        None => buffer_size_range.1,
    }
}

/// The buffer duration requested when the audio client is initialized: that of the preferred
/// frame size, or zero (the device's default) when the range gives none.
pub fn requested_buffer_duration(
    buffer_size_range: (Option<usize>, Option<usize>),
    sample_rate: u32,
) -> (r: i64)
    requires
        preferred_frame_size(buffer_size_range) matches Some(f) ==> {
            &&& sample_rate > 0
            &&& i64::MIN <= trunc_div(f as i64 as int, sample_rate as int) * reftimes_per_second()
                <= i64::MAX
        },
    ensures
        r == match preferred_frame_size(buffer_size_range) {
            Some(f) => trunc_div(f as i64 as int, sample_rate as int) * reftimes_per_second(),
            None => 0,
        },
{
    let frame_size = match buffer_size_range.0 {
        Some(v) => Some(v),
        None => buffer_size_range.1,
    };
    match frame_size {
        Some(f) => buffer_size_to_duration(f, sample_rate),
        None => 0,
    }
}

/// Number of frames a render pass asks for: the free part of the device buffer (its size less
/// the frames still queued), capped by the stream's maximum buffer size when it has one.
pub fn render_frames_requested(frame_size: usize, padding: usize, max_frames: Option<usize>) -> (r:
    usize)
    requires
        padding <= frame_size,
    ensures
        r == match max_frames {
            Some(m) => if frame_size - padding <= m {
                (frame_size - padding) as usize
            } else {
                m
            },
            None => (frame_size - padding) as usize,
        },
{
    let frames_available = frame_size - padding;
    match max_frames {
        Some(m) => if frames_available <= m {
            frames_available
        } else {
            m
        },
        None => frames_available,
    }
}

/// The channel map that opens the first `num_channels` channels.
pub fn channel_map_for_count(num_channels: u16) -> (r: u32)
    requires
        num_channels <= 32,
    ensures
        forall|i: int| 0 <= i < 32 ==> #[trigger] r.spec_index(i) == (i < num_channels),
{
    let mut indices: Vec<usize> = Vec::new();
    let mut i: u16 = 0;
    while i < num_channels
        invariant
            i <= num_channels <= 32,
            indices@ == Seq::new(i as nat, |k: int| k as usize),
        decreases num_channels - i,
    {
        indices.push(i as usize);
        i = i + 1;
    }
    let r = 0u32.with_indices(indices.as_slice());
    proof {
        assert forall|i: int| 0 <= i < 32 implies #[trigger] r.spec_index(i) == (i
            < num_channels) by {
            let ii = i as u32;
            assert((0u32 >> ii) & 1u32 == 0u32) by (bit_vector);
            if i < num_channels {
                assert(indices@[i] == i as usize);
            }
        }
    }
    r
}

/// Whether the format the shared-mode mixer settled on keeps the stream's configuration: the
/// same sample rate (`sample_rate_matches`, compared by the caller) and as many channels as
/// the channel map requests.
pub fn shared_format_matches(requested_channels: u32, mix_channels: u16, sample_rate_matches: bool) -> (r:
    bool)
    requires
        mix_channels <= 32,
    ensures
        r == (sample_rate_matches && true_indices_below(
            |i: int| requested_channels.spec_index(i),
            32,
        ).len() == mix_channels),
{
    let new_channels = channel_map_for_count(mix_channels);
    let requested = requested_channels.count();
    let mixed = new_channels.count();
    proof {
        lemma_count_first(new_channels, mix_channels as nat, 32);
    }
    sample_rate_matches && requested == mixed
}

/// A bitset whose first `k` indices (and no other) are set has `min(n, k)` set indices below
/// `n`.
proof fn lemma_count_first(x: u32, k: nat, n: nat)
    requires
        n <= 32,
        forall|i: int| 0 <= i < 32 ==> #[trigger] x.spec_index(i) == (i < k),
    ensures
        true_indices_below(|i: int| x.spec_index(i), n).len() == if n <= k {
            n
        } else {
            k
        },
    decreases n,
{
    if n > 0 {
        lemma_count_first(x, k, (n - 1) as nat);
    }
}

/// Size in bytes of the Windows `WAVEFORMATEX` structure.
pub const WAVEFORMATEX_SIZE: usize = 18usize;

/// Size in bytes of the Windows `WAVEFORMATEXTENSIBLE` structure.
pub const WAVEFORMATEXTENSIBLE_SIZE: usize = 40usize;

/// Windows format tag of extensible wave formats (`WAVE_FORMAT_EXTENSIBLE`).
pub const WAVE_FORMAT_EXTENSIBLE: u16 = 65534u16;

/// Windows speaker mask of streams without speaker positions (`KSAUDIO_SPEAKER_DIRECTOUT`).
pub const KSAUDIO_SPEAKER_DIRECTOUT: u32 = 0u32;

/// The integer fields of the extensible wave format that a stream asks for; its sub-format is
/// always IEEE float.
#[derive(Debug, Clone, Copy, PartialEq, Eq)]
pub struct WaveFormat {
    /// `wFormatTag`
    pub format_tag: u16,
    /// `nChannels`
    pub channels: u16,
    /// `nSamplesPerSec`
    pub samples_per_sec: u32,
    /// `nAvgBytesPerSec`
    pub avg_bytes_per_sec: u32,
    /// `nBlockAlign`
    pub block_align: u16,
    /// `wBitsPerSample`
    pub bits_per_sample: u16,
    /// `cbSize`: the bytes that follow the `WAVEFORMATEX` header.
    pub cb_size: u16,
    /// `Samples.wSamplesPerBlock`
    pub samples_per_block: u16,
    /// `dwChannelMask`
    pub channel_mask: u32,
}

/// The number of channels a channel map requests: its set indices.
pub open spec fn map_channel_count(map: u32) -> nat {
    true_indices_below(|i: int| map.spec_index(i), 32).len()
}

/// The wave format of a stream of 32-bit float samples that requests the channels of the
/// channel map `channels`, at the given sample rate: as many channels as the map has set.
pub fn config_to_waveformatextensible(channels: u32, sample_rate: u32) -> (r: WaveFormat)
    requires
        map_channel_count(channels) * sample_rate * 4 <= u32::MAX,
    ensures
        r.format_tag == WAVE_FORMAT_EXTENSIBLE,
        r.channels == map_channel_count(channels),
        r.samples_per_sec == sample_rate,
        r.avg_bytes_per_sec == map_channel_count(channels) * sample_rate * 4,
        r.block_align == map_channel_count(channels) * 4,
        r.bits_per_sample == 32,
        r.cb_size == 22,
        r.samples_per_block == 32,
        r.channel_mask == KSAUDIO_SPEAKER_DIRECTOUT,
{
    let format_tag = WAVE_FORMAT_EXTENSIBLE;
    let count = channels.count();
    proof {
        lemma_true_indices_below(|i: int| channels.spec_index(i), 32);
    }
    let channels = count as u16;
    let sample_bytes: u16 = 4;
    proof {
        assert((channels as u32) * sample_rate * 4 <= u32::MAX);
        assert(0 <= (channels as u32) * sample_rate) by (nonlinear_arith);
    }
    let avg_bytes_per_sec = (channels as u32) * sample_rate * (sample_bytes as u32);
    let block_align = channels * sample_bytes;
    let bits_per_sample = 8 * sample_bytes;
    let cb_size = (WAVEFORMATEXTENSIBLE_SIZE - WAVEFORMATEX_SIZE) as u16;
    WaveFormat {
        format_tag,
        channels,
        samples_per_sec: sample_rate,
        avg_bytes_per_sec,
        block_align,
        bits_per_sample,
        cb_size,
        samples_per_block: bits_per_sample,
        channel_mask: KSAUDIO_SPEAKER_DIRECTOUT,
    }
}

/// Direction of the endpoints of a device list.
#[derive(Debug, Clone, Copy, PartialEq, Eq, Structural)]
pub enum DataFlow {
    /// Playback endpoints (`eRender`).
    Render,
    /// Capture endpoints (`eCapture`).
    Capture,
}

/// The endpoint direction of the default device of a type: capture for exactly `INPUT`,
/// render for exactly `OUTPUT`, none otherwise.
pub fn default_device_flow(device_type: DeviceType) -> (r: Option<DataFlow>)
    ensures
        r == if device_type@ == 1 {
            Some(DataFlow::Capture)
        } else if device_type@ == 2 {
            Some(DataFlow::Render)
        } else {
            None::<DataFlow>
        },
{
    let input = DeviceType::INPUT();
    let output = DeviceType::OUTPUT();
    proof {
        crate::device::lemma_device_type_eq(device_type, input);
        crate::device::lemma_device_type_eq(device_type, output);
    }
    if device_type == input {
        Some(DataFlow::Capture)
    } else if device_type == output {
        Some(DataFlow::Render)
    } else {
        None
    }
}

/// Whether a device of this type can be asked about a configuration at all: duplex and
/// non-physical devices support none.
pub fn config_check_applies(device_type: DeviceType) -> (r: bool)
    ensures
        r == !(device_type@ & 3 == 3 || device_type@ & 4 != 4),
{
    !(device_type.is_duplex() || !device_type.is_physical())
}

/// The input and output channel counts of the default configuration of a device whose mix
/// format has `channels` channels: all input for an input device, all output otherwise.
pub fn default_config_channels(device_type: DeviceType, channels: u16) -> (r: (usize, usize))
    ensures
        r == if device_type@ & 1 == 1 {
            (channels as usize, 0usize)
        } else {
            (0usize, channels as usize)
        },
{
    if device_type.is_input() {
        (channels as usize, 0)
    } else {
        (0, channels as usize)
    }
}

/// Nanoseconds of a stream clock position given in 100-nanosecond units.
pub fn qpc_position_to_nanos(qpc_position: u64) -> (r: u64)
    requires
        qpc_position * 100 <= u64::MAX,
    ensures
        r == qpc_position * 100,
{
    qpc_position * 100
}

/// Position in a list of `total_count` devices: the index of the next device to hand out.
pub struct DeviceListCursor {
    total_count: u32,
    next_item: u32,
}

impl DeviceListCursor {
    #[verifier::type_invariant]
    spec fn well_formed(self) -> bool {
        self.next_item <= self.total_count
    }

    /// Number of devices in the list.
    pub closed spec fn spec_total(&self) -> nat {
        self.total_count as nat
    }

    /// Index of the next device to hand out.
    pub closed spec fn spec_next(&self) -> nat {
        self.next_item as nat
    }

    /// A cursor at the start of a list of `total_count` devices.
    pub fn new(total_count: u32) -> (r: DeviceListCursor)
        ensures
            r.spec_total() == total_count,
            r.spec_next() == 0,
    {
        DeviceListCursor { total_count, next_item: 0 }
    }

    /// The index of the next device, if any is left; the cursor moves past it.
    pub fn next(&mut self) -> (r: Option<u32>)
        ensures
            final(self).spec_total() == old(self).spec_total(),
            old(self).spec_next() < old(self).spec_total() ==> {
                &&& r == Some(old(self).spec_next() as u32)
                &&& final(self).spec_next() == old(self).spec_next() + 1
            },
            old(self).spec_next() >= old(self).spec_total() ==> {
                &&& r is None
                &&& final(self).spec_next() == old(self).spec_next()
            },
    {
        if self.next_item >= self.total_count {
            return None;
        }
        let item = self.next_item;
        self.next_item = self.next_item + 1;
        Some(item)
    }

    /// Number of devices left, as an exact size hint.
    pub fn size_hint(&self) -> (r: (usize, Option<usize>))
        ensures
            r.0 == self.spec_total() - self.spec_next(),
            r.1 == Some(r.0),
    {
        proof {
            use_type_invariant(self);
        }
        let rest = (self.total_count - self.next_item) as usize;
        (rest, Some(rest))
    }
}

/// The WASAPI driver.
#[derive(Debug, Clone, Copy, Default)]
pub struct WasapiDriver;

impl WasapiDriver {
    /// Driver display name.
    pub const DISPLAY_NAME: &'static str = "WASAPI";
}

} // verus!
