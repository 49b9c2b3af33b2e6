//! # ALSA backend decisions
//!
//! ALSA is a generally available driver for Linux and BSD systems. The calls into ALSA (opening
//! PCM devices, reading and writing them, polling) stay with the caller; this module holds what
//! the backend decides on the values those calls give: device types, default configurations,
//! and the bookkeeping of the audio thread.
use vstd::prelude::*;
use crate::channel_map::Bitset;
use crate::device::DeviceType;

verus! {

/// Direction of a PCM device.
#[derive(Debug, Clone, Copy, PartialEq, Eq, Structural)]
pub enum Direction {
    /// Output device.
    Playback,
    /// Input device.
    Capture,
}

/// ALSA driver type. ALSA is statically available without client configuration, therefore this
/// type is zero-sized.
#[derive(Debug, Clone, Copy, Default)]
pub struct AlsaDriver;

impl AlsaDriver {
    /// Driver display name.
    pub const DISPLAY_NAME: &'static str = "ALSA";

    /// Runtime version of the driver, which ALSA does not report.
    pub fn version(&self) -> (r: &'static str)
        ensures
            r@ == "ALSA (version unknown)"@,
    {
        "ALSA (version unknown)"
    }
}

/// An ALSA device: a PCM device name and its direction.
#[derive(Debug, Clone)]
pub struct AlsaDevice {
    /// PCM device name.
    pub name: String,
    /// Direction the device is opened in.
    pub direction: Direction,
}

/// The name of the default PCM device.
pub open spec fn default_pcm_name() -> Seq<char> {
    seq!['d', 'e', 'f', 'a', 'u', 'l', 't']
}

impl AlsaDevice {
    /// The default device of a type: the "default" PCM device, in capture for exactly an input
    /// type, in playback for exactly an output type, and none for any other type.
    pub fn default_device(device_type: DeviceType) -> (r: Option<AlsaDevice>)
        ensures
            r is Some <==> (device_type@ == 1 || device_type@ == 2),
            r matches Some(d) ==> {
                &&& d.name@ == default_pcm_name()
                &&& d.direction == if device_type@ == 1 {
                    Direction::Capture
                } else {
                    Direction::Playback
                }
            },
    {
        let input = DeviceType::INPUT();
        let output = DeviceType::OUTPUT();
        proof {
            crate::device::lemma_device_type_eq(device_type, input);
            crate::device::lemma_device_type_eq(device_type, output);
        }
        let direction = if device_type == input {
            Direction::Capture
        } else if device_type == output {
            Direction::Playback
        } else {
            return None;
        };
        let name = String::from_str("default");
        proof {
            reveal_strlit("default");
        }
        Some(AlsaDevice { name, direction })
    }

    /// The type of the device: a physical input for capture, a physical output for playback.
    pub fn device_type(&self) -> (r: DeviceType)
        ensures
            r@ == match self.direction {
                Direction::Capture => 5u32,
                Direction::Playback => 6u32,
            },
    {
        let r = match self.direction {
            Direction::Capture => DeviceType::PHYSICAL().union(DeviceType::INPUT()),
            Direction::Playback => DeviceType::PHYSICAL().union(DeviceType::OUTPUT()),
        };
        proof {
            assert(4u32 | 1u32 == 5u32) by (bit_vector);
            assert(4u32 | 2u32 == 6u32) by (bit_vector);
        }
        r
    }
}

/// The input and output channel counts of the default configuration of a device whose hardware
/// parameters give `channels` channels: all input in capture, all output in playback.
pub fn default_config_channels(direction: Direction, channels: u32) -> (r: (usize, usize))
    ensures
        r == match direction {
            Direction::Capture => (channels as usize, 0usize),
            Direction::Playback => (0usize, channels as usize),
        },
{
    let channels = channels as usize;
    match direction {
        Direction::Capture => (channels, 0),
        Direction::Playback => (0, channels),
    }
}

/// A buffer size bound read from the hardware parameters (absent when the read failed), as a
/// frame count.
pub fn buffer_size_bound(frames: Option<i64>) -> (r: Option<usize>)
    ensures
        r == match frames {
            Some(f) => Some(f as usize),
            None => None::<usize>,
        },
{
    match frames {
        Some(f) => {
            #[verifier::truncate]
            let n = f as usize;
            Some(n)
        },
        None => None,
    }
}

/// A device combining a capture device and a playback device.
#[derive(Debug, Clone)]
pub struct AlsaDuplex {
    /// The input side.
    pub capture: AlsaDevice,
    /// The output side.
    pub playback: AlsaDevice,
}

impl AlsaDuplex {
    /// Device display name: the capture name and the playback name, separated by " / ".
    pub fn name(&self) -> (r: String)
        ensures
            r@ == self.capture.name@ + seq![' ', '/', ' '] + self.playback.name@,
    {
        let mut name = self.capture.name.clone();
        name.append(" / ");
        proof {
            reveal_strlit(" / ");
        }
        name.append(self.playback.name.as_str());
        name
    }

    /// The type of the device: physical and duplex.
    pub fn device_type(&self) -> (r: DeviceType)
        ensures
            r@ == 7,
    {
        let r = DeviceType::PHYSICAL().union(DeviceType::DUPLEX());
        proof {
            assert(4u32 | 3u32 == 7u32) by (bit_vector);
        }
        r
    }
}

/// The buffer size range of the default duplex configuration from the bounds of both sides
/// (a bound that could not be read counting as zero): the larger of the minimums and the
/// smaller of the maximums, each kept only when it is zero.
pub fn duplex_buffer_size_range(
    input_min: Option<i64>,
    output_min: Option<i64>,
    input_max: Option<i64>,
    output_max: Option<i64>,
) -> (r: (Option<usize>, Option<usize>))
    ensures
        ({
            let inp_min = match input_min {
                Some(v) => v,
                None => 0i64,
            };
            let out_min = match output_min {
                Some(v) => v,
                None => 0i64,
            };
            let inp_max = match input_max {
                Some(v) => v,
                None => 0i64,
            };
            let out_max = match output_max {
                Some(v) => v,
                None => 0i64,
            };
            let min_size = if inp_min >= out_min {
                inp_min
            } else {
                out_min
            };
            let max_size = if inp_max <= out_max {
                inp_max
            } else {
                out_max
            };
            &&& r.0 == if min_size == 0 {
                Some(0usize)
            } else {
                None::<usize>
            }
            &&& r.1 == if max_size == 0 {
                Some(0usize)
            } else {
                None::<usize>
            }
        }),
{
    let inp_min = match input_min {
        Some(v) => v,
        None => 0,
    };
    let out_min = match output_min {
        Some(v) => v,
        None => 0,
    };
    let min_size = if inp_min >= out_min {
        inp_min
    } else {
        out_min
    };
    let inp_max = match input_max {
        Some(v) => v,
        None => 0,
    };
    let out_max = match output_max {
        Some(v) => v,
        None => 0,
    };
    let max_size = if inp_max <= out_max {
        inp_max
    } else {
        out_max
    };
    let lo = if min_size == 0 {
        Some(min_size as usize)
    } else {
        None
    };
    let hi = if max_size == 0 {
        Some(max_size as usize)
    } else {
        None
    };
    (lo, hi)
}

/// The channel map of a stream opened with `num_channels` channels: its first channels, as
/// many as a map of 32 channels holds, so that the map counts the channels of the stream.
pub fn stream_channel_map(num_channels: usize) -> (r: u32)
    ensures
        forall|i: int| 0 <= i < 32 ==> #[trigger] r.spec_index(i) == (i < num_channels),
{
    let m: usize = if num_channels < 32 {
        num_channels
    } else {
        32
    };
    let mut indices: Vec<usize> = Vec::new();
    let mut k: usize = 0;
    while k < m
        invariant
            k <= m <= 32,
            indices@ == Seq::new(k as nat, |j: int| j as usize),
        decreases m - k,
    {
        indices.push(k);
        k = k + 1;
    }
    let r = 0u32.with_indices(indices.as_slice());
    proof {
        assert forall|i: int| 0 <= i < 32 implies #[trigger] r.spec_index(i) == (i
            < num_channels) by {
            let ii = i as u32;
            assert((0u32 >> ii) & 1u32 == 0u32) by (bit_vector);
            if i < m {
                assert(indices@[i] == i as usize);
            }
            if indices@.contains(i as usize) {
                let w = choose|w: int| 0 <= w < indices@.len() && indices@[w] == i as usize;
                assert(indices@[w] == w as usize);
            }
        }
    }
    r
}

/// Bookkeeping of one direction of an ALSA stream: its channel count and period size, fixed
/// when the device is configured, and its running sample counter.
#[derive(Debug, Clone, Copy)]
pub struct StreamData {
    channels: usize,
    max_frame_count: usize,
    counter: u64,
}

impl StreamData {
    #[verifier::type_invariant]
    spec fn well_formed(self) -> bool {
        self.channels * self.max_frame_count <= usize::MAX
    }

    /// Channels of the stream.
    pub closed spec fn spec_channels(&self) -> nat {
        self.channels as nat
    }

    /// Frames per period, the most one read or write handles.
    pub closed spec fn spec_max_frame_count(&self) -> nat {
        self.max_frame_count as nat
    }

    /// Samples counted so far.
    pub closed spec fn spec_counter(&self) -> nat {
        self.counter as nat
    }

    /// Bookkeeping of a stream configured with `channels` channels and `period_size` frames per
    /// period, its counter at zero.
    pub fn new(channels: usize, period_size: usize) -> (r: StreamData)
        requires
            channels * period_size <= usize::MAX,
        ensures
            r.spec_channels() == channels,
            r.spec_max_frame_count() == period_size,
            r.spec_counter() == 0,
    {
        StreamData { channels, max_frame_count: period_size, counter: 0 }
    }

    /// Bookkeeping of a direction the stream does not have: no channels, no frames.
    pub fn new_empty() -> (r: StreamData)
        ensures
            r.spec_channels() == 0,
            r.spec_max_frame_count() == 0,
            r.spec_counter() == 0,
    {
        StreamData { channels: 0, max_frame_count: 0, counter: 0 }
    }

    /// Channels of the stream.
    pub fn channels(&self) -> (r: usize)
        ensures
            r == self.spec_channels(),
    {
        self.channels
    }

    /// Frames per period.
    pub fn max_frame_count(&self) -> (r: usize)
        ensures
            r == self.spec_max_frame_count(),
    {
        self.max_frame_count
    }

    /// Samples counted so far.
    pub fn counter(&self) -> (r: u64)
        ensures
            r == self.spec_counter(),
    {
        self.counter
    }

    /// Length of the interleaved buffer of one period.
    pub fn buffer_len(&self) -> (r: usize)
        ensures
            r == self.spec_channels() * self.spec_max_frame_count(),
    {
        proof {
            use_type_invariant(self);
        }
        self.channels * self.max_frame_count
    }

    /// Length of the part of the buffer that `num_frames` frames take; it never exceeds the
    /// buffer.
    pub fn frames_len(&self, num_frames: usize) -> (r: usize)
        requires
            num_frames <= self.spec_max_frame_count(),
        ensures
            r == num_frames * self.spec_channels(),
            r <= self.spec_channels() * self.spec_max_frame_count(),
    {
        proof {
            use_type_invariant(self);
            assert(num_frames * self.channels <= self.channels * self.max_frame_count)
                by (nonlinear_arith)
                requires
                    num_frames <= self.max_frame_count,
            ;
        }
        num_frames * self.channels
    }

    /// Advance the sample counter by `samples`.
    pub fn tick_timestamp(&mut self, samples: u64)
        requires
            old(self).spec_counter() + samples <= u64::MAX,
        ensures
            final(self).spec_counter() == old(self).spec_counter() + samples,
            final(self).spec_channels() == old(self).spec_channels(),
            final(self).spec_max_frame_count() == old(self).spec_max_frame_count(),
    {
        proof {
            use_type_invariant(&*self);
        }
        self.counter = self.counter + samples;
    }
}

/// The frames per period of a stream with both directions: the larger of the two.
pub fn resolved_max_frame_count(input: &StreamData, output: &StreamData) -> (r: usize)
    ensures
        r == if output.spec_max_frame_count() >= input.spec_max_frame_count() {
            output.spec_max_frame_count()
        } else {
            input.spec_max_frame_count()
        },
{
    let out_max = output.max_frame_count();
    let in_max = input.max_frame_count();
    if out_max >= in_max {
        out_max
    } else {
        in_max
    }
}

/// What the audio thread does next.
#[derive(Debug, Clone, Copy, PartialEq, Eq, Structural)]
pub enum LoopAction {
    /// No frames are available either way: wait on the device and the eject trigger.
    Wait,
    /// Read `in_frames` frames, let the callback process them and fill `out_frames` frames,
    /// then write those.
    Process {
        /// Frames to read from the input.
        in_frames: usize,
        /// Frames to write to the output.
        out_frames: usize,
    },
}

/// The next step of the audio thread given the frames available on the output and on the
/// input: wait when there are none either way, else process what is there.
pub fn next_action(out_frames: usize, in_frames: usize) -> (r: LoopAction)
    ensures
        r == if out_frames == 0 && in_frames == 0 {
            LoopAction::Wait
        } else {
            LoopAction::Process { in_frames, out_frames }
        },
{
    if out_frames == 0 && in_frames == 0 {
        LoopAction::Wait
    } else {
        LoopAction::Process { in_frames, out_frames }
    }
}

/// One period of a duplex stream: the frames read and written, capped at the period sizes,
/// and the lengths of the interleaved buffer parts they take.
#[derive(Debug, Clone, Copy, PartialEq, Eq, Structural)]
pub struct DuplexPeriod {
    /// Frames read from the input.
    pub in_frames: usize,
    /// Length of the input buffer part they take.
    pub in_len: usize,
    /// Frames written to the output.
    pub out_frames: usize,
    /// Length of the output buffer part they take.
    pub out_len: usize,
}

/// The period a duplex stream processes given the frames available on each side: none (wait)
/// when neither side has any; otherwise each side's available frames capped at its period
/// size, so that the buffer parts never exceed the buffers.
pub fn plan_duplex_period(input: &StreamData, output: &StreamData, in_avail: usize, out_avail: usize) -> (r:
    Option<DuplexPeriod>)
    ensures
        r is None <==> (out_avail == 0 && in_avail == 0),
        r matches Some(p) ==> {
            &&& p.out_frames == if out_avail <= output.spec_max_frame_count() {
                out_avail as nat
            } else {
                output.spec_max_frame_count()
            }
            &&& p.in_frames == if in_avail <= input.spec_max_frame_count() {
                in_avail as nat
            } else {
                input.spec_max_frame_count()
            }
            &&& p.out_len == p.out_frames * output.spec_channels()
            &&& p.in_len == p.in_frames * input.spec_channels()
            &&& p.out_len <= output.spec_channels() * output.spec_max_frame_count()
            &&& p.in_len <= input.spec_channels() * input.spec_max_frame_count()
        },
{
    if out_avail == 0 && in_avail == 0 {
        return None;
    }
    let out_periods = output.max_frame_count();
    let in_periods = input.max_frame_count();
    let out_frames = if out_avail <= out_periods {
        out_avail
    } else {
        out_periods
    };
    let in_frames = if in_avail <= in_periods {
        in_avail
    } else {
        in_periods
    };
    let out_len = output.frames_len(out_frames);
    let in_len = input.frames_len(in_frames);
    Some(DuplexPeriod { in_frames, in_len, out_frames, out_len })
}

/// The frames one side processes in a period: what is available, capped at its period size.
pub open spec fn capped_frames(available: nat, period: nat) -> nat {
    if available <= period {
        available
    } else {
        period
    }
}

/// One period of a stream with a single direction: the callback handles the `available`
/// frames, which take the returned length of the interleaved buffer, and the sample counter
/// advances by them. More frames than a period holds would overrun the buffer, so `available`
/// is at most the period size.
pub fn simplex_step(data: &mut StreamData, available: usize) -> (r: usize)
    requires
        available <= old(data).spec_max_frame_count(),
        old(data).spec_counter() + available <= u64::MAX,
    ensures
        r == available * old(data).spec_channels(),
        r <= old(data).spec_channels() * old(data).spec_max_frame_count(),
        final(data).spec_counter() == old(data).spec_counter() + available,
        final(data).spec_channels() == old(data).spec_channels(),
        final(data).spec_max_frame_count() == old(data).spec_max_frame_count(),
{
    let len = data.frames_len(available);
    data.tick_timestamp(available as u64);
    len
}

/// Bookkeeping of both directions of a duplex stream.
pub struct DuplexData {
    /// The capture side.
    pub input: StreamData,
    /// The playback side.
    pub output: StreamData,
}

impl DuplexData {
    /// One step of the duplex audio thread, given the frames available on each side: when there
    /// are none either way it waits (`None`) and nothing changes; otherwise it processes the
    /// period `plan_duplex_period` gives (each side's available frames capped at its period
    /// size), and each side's sample counter advances by the frames it processed.
    pub fn step(&mut self, in_available: usize, out_available: usize) -> (r: Option<DuplexPeriod>)
        requires
            old(self).input.spec_counter() + capped_frames(
                in_available as nat,
                old(self).input.spec_max_frame_count(),
            ) <= u64::MAX,
            old(self).output.spec_counter() + capped_frames(
                out_available as nat,
                old(self).output.spec_max_frame_count(),
            ) <= u64::MAX,
        ensures
            r is None <==> (out_available == 0 && in_available == 0),
            r matches Some(p) ==> {
                &&& p.in_frames == capped_frames(
                    in_available as nat,
                    old(self).input.spec_max_frame_count(),
                )
                &&& p.out_frames == capped_frames(
                    out_available as nat,
                    old(self).output.spec_max_frame_count(),
                )
                &&& p.in_len == p.in_frames * old(self).input.spec_channels()
                &&& p.out_len == p.out_frames * old(self).output.spec_channels()
            },
            final(self).input.spec_counter() == old(self).input.spec_counter() + match r {
                Some(p) => p.in_frames as nat,
                None => 0nat,
            },
            final(self).output.spec_counter() == old(self).output.spec_counter() + match r {
                Some(p) => p.out_frames as nat,
                None => 0nat,
            },
            final(self).input.spec_channels() == old(self).input.spec_channels(),
            final(self).input.spec_max_frame_count() == old(self).input.spec_max_frame_count(),
            final(self).output.spec_channels() == old(self).output.spec_channels(),
            final(self).output.spec_max_frame_count() == old(self).output.spec_max_frame_count(),
    {
        let plan = plan_duplex_period(&self.input, &self.output, in_available, out_available);
        match plan {
            Some(p) => {
                self.input.tick_timestamp(p.in_frames as u64);
                self.output.tick_timestamp(p.out_frames as u64);
                Some(p)
            },
            None => None,
        }
    }
}

/// States of an ALSA PCM (`snd_pcm_state_t`).
#[derive(Debug, Clone, Copy, PartialEq, Eq, Structural)]
pub enum PcmState {
    /// Open, not yet set up.
    Open,
    /// Set up, not prepared.
    Setup,
    /// Ready to start.
    Prepared,
    /// Running.
    Running,
    /// Stopped by an underrun or overrun.
    XRun,
    /// Draining.
    Draining,
    /// Paused.
    Paused,
    /// Suspended by power management.
    Suspended,
    /// The hardware is gone.
    Disconnected,
}

/// Whether a stream must be started once its PCM is prepared: when it is not running already.
pub fn needs_start(state: PcmState) -> (r: bool)
    ensures
        r == (state != PcmState::Running),
{
    state != PcmState::Running
}

/// What a stream's audio thread does about the state of its PCM after a period.
#[derive(Debug, Clone, Copy, PartialEq, Eq, Structural)]
pub enum Recovery {
    /// Resume the suspended PCM.
    Resume,
    /// Prepare the PCM again.
    Prepare,
    /// Wait a second before the next period.
    Wait,
    /// Go on with the next period.
    Continue,
}

/// The recovery of a PCM in the given state: a suspended PCM is resumed when the hardware can
/// resume, prepared again otherwise; a paused one is waited for; in any other state the stream
/// goes on.
pub fn recovery_for(state: PcmState, can_resume: bool) -> (r: Recovery)
    ensures
        r == match state {
            PcmState::Suspended => if can_resume {
                Recovery::Resume
            } else {
                Recovery::Prepare
            },
            PcmState::Paused => Recovery::Wait,
            _ => Recovery::Continue,
        },
{
    match state {
        PcmState::Suspended => if can_resume {
            Recovery::Resume
        } else {
            Recovery::Prepare
        },
        PcmState::Paused => Recovery::Wait,
        _ => Recovery::Continue,
    }
}

} // verus!
