//! Decisions of the CoreAudio backend: device types, the buffer size set on a device, the
//! scope of device properties and the channels of a device. The calls into CoreAudio stay with
//! the caller, which hands what it read to these functions.
use vstd::prelude::*;
use crate::device::Channel;
use crate::device::DeviceType;

verus! {

/// Scope of an audio property: the input or the output side of a device.
#[derive(Debug, Clone, Copy, PartialEq, Eq, Structural)]
pub enum Scope {
    /// Input side.
    Input,
    /// Output side.
    Output,
}

/// Type of errors from the CoreAudio backend
#[derive(Debug, Clone, Copy, PartialEq, Eq, Structural)]
pub enum CoreAudioError {
    /// Error originating from CoreAudio, with its status code.
    BackendError(i32),
    /// The scope given to an audio device is invalid.
    InvalidScope(Scope),
}

/// The CoreAudio driver.
#[derive(Debug, Copy, Clone)]
pub struct CoreAudioDriver;

impl CoreAudioDriver {
    /// Driver display name.
    pub const DISPLAY_NAME: &'static str = "CoreAudio";
}

/// The type of a device opened on one side: input when `is_input`, output otherwise, and
/// default when it is the default device of either side.
pub fn device_type_for(is_input: bool, is_default: bool) -> (r: DeviceType)
    ensures
        r@ == (if is_input {
            1u32
        } else {
            2u32
        }) | (if is_default {
            16u32
        } else {
            0u32
        }),
{
    let is_output = !is_input;
    let mut device_type = DeviceType::empty();
    device_type.set(DeviceType::INPUT(), is_input);
    device_type.set(DeviceType::OUTPUT(), is_output);
    device_type.set(DeviceType::DEFAULT(), is_default);
    proof {
        assert(((0u32 | 1u32) & !2u32) | 16u32 == 17u32) by (bit_vector);
        assert(((0u32 | 1u32) & !2u32) & !16u32 == 1u32) by (bit_vector);
        assert(((0u32 & !1u32) | 2u32) | 16u32 == 18u32) by (bit_vector);
        assert(((0u32 & !1u32) | 2u32) & !16u32 == 2u32) by (bit_vector);
        assert(1u32 | 16u32 == 17u32) by (bit_vector);
        assert(1u32 | 0u32 == 1u32) by (bit_vector);
        assert(2u32 | 16u32 == 18u32) by (bit_vector);
        assert(2u32 | 0u32 == 2u32) by (bit_vector);
    }
    device_type
}

/// Scope of the properties of a device: its input side for input devices, its output side
/// otherwise.
pub fn property_scope(device_type: DeviceType) -> (r: Scope)
    ensures
        r == if device_type@ & 1 == 1 {
            Scope::Input
        } else {
            Scope::Output
        },
{
    if device_type.is_input() {
        Scope::Input
    } else {
        Scope::Output
    }
}

/// The buffer frame size to set on a device for a stream: when the stream asks for one exact
/// size (its smallest and largest buffer sizes being equal), that size as a 32-bit value;
/// otherwise none, and the device keeps its own.
pub fn requested_buffer_frame_size(buffer_size_range: (Option<usize>, Option<usize>)) -> (r: Option<
    u32,
>)
    ensures
        r == match buffer_size_range {
            (Some(min), Some(max)) => if min == max {
                Some(min as u32)
            } else {
                None::<u32>
            },
            _ => None::<u32>,
        },
{
    match buffer_size_range {
        (Some(min), Some(max)) => {
            if min == max {
                #[verifier::truncate]
                let size = min as u32;
                Some(size)
            } else {
                None
            }
        },
        _ => None,
    }
}

/// Whether a stream on a device of this type is an input stream: only devices that are inputs
/// and not outputs get one; all others get an output stream.
pub fn opens_input_stream(device_type: DeviceType) -> (r: bool)
    ensures
        r == (device_type@ & 1 == 1 && device_type@ & 2 != 2),
{
    device_type.is_input() && !device_type.is_output()
}

/// The input and output channel counts of the default configuration of a device whose stream
/// format has `channels` channels: the input side has them when the device is an input, the
/// output side when it is an output.
pub fn default_config_channels(device_type: DeviceType, channels: u32) -> (r: (usize, usize))
    ensures
        r.0 == if device_type@ & 1 == 1 {
            channels as usize
        } else {
            0usize
        },
        r.1 == if device_type@ & 2 == 2 {
            channels as usize
        } else {
            0usize
        },
{
    let input_channels = if device_type.is_input() {
        channels as usize
    } else {
        0
    };
    let output_channels = if device_type.is_output() {
        channels as usize
    } else {
        0
    };
    (input_channels, output_channels)
}

/// The decimal digit of `d`.
pub open spec fn digit_char(d: nat) -> char {
    ((d % 10) + 48) as char
}

/// The decimal representation of `n`, without leading zeros.
pub open spec fn decimal(n: nat) -> Seq<char>
    decreases n,
{
    if n < 10 {
        seq![digit_char(n)]
    } else {
        decimal(n / 10).push(digit_char(n % 10))
    }
}

/// `usize::to_string`: the decimal representation of `n`.
#[verifier::external_body]
pub(crate) fn usize_to_string(n: usize) -> (r: String)
    ensures
        r@ == decimal(n as nat),
{
    n.to_string()
}

/// "Channel " followed by the decimal index, the generic name of a channel.
pub open spec fn generic_channel_name(index: nat) -> Seq<char> {
    seq!['C', 'h', 'a', 'n', 'n', 'e', 'l', ' '] + decimal(index)
}

/// The channels of a device with `channels` channels: indices `0` up to `channels`, each with
/// its generic name.
pub fn channel_map(channels: usize) -> (r: Vec<Channel>)
    ensures
        r@.len() == channels,
        forall|i: int|
            0 <= i < channels ==> (#[trigger] r@[i]).index == i && r@[i].name@
                == generic_channel_name(i as nat),
{
    let mut out: Vec<Channel> = Vec::new();
    let mut ch: usize = 0;
    while ch < channels
        invariant
            ch <= channels,
            out@.len() == ch,
            forall|i: int|
                0 <= i < ch ==> (#[trigger] out@[i]).index == i && out@[i].name@
                    == generic_channel_name(i as nat),
        decreases channels - ch,
    {
        let mut name = String::from_str("Channel ");
        proof {
            reveal_strlit("Channel ");
        }
        let number = usize_to_string(ch);
        name.append(number.as_str());
        out.push(Channel { index: ch, name });
        ch = ch + 1;
    }
    out
}

} // verus!
