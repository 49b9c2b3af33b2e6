//! Decisions of the ASIO backend: device types from channel counts, buffer sizes, and which
//! configurations a driver supports. The calls into the ASIO driver stay with the caller,
//! which hands what it read to these functions.
use vstd::prelude::*;
use crate::device::DeviceType;

verus! {

/// The type of a device whose driver has `ins` input and `outs` output channels: duplex with
/// both, input or output with only one of them, none (no usable driver) with neither.
pub fn device_type_for_channels(ins: i32, outs: i32) -> (r: Option<DeviceType>)
    ensures
        r is None <==> (ins <= 0 && outs <= 0),
        r matches Some(t) ==> t@ == if ins > 0 && outs > 0 {
            3u32
        } else if ins > 0 {
            1u32
        } else {
            2u32
        },
{
    let is_input = ins > 0;
    let is_output = outs > 0;
    match (is_input, is_output) {
        (true, true) => Some(DeviceType::DUPLEX()),
        (true, false) => Some(DeviceType::INPUT()),
        (false, true) => Some(DeviceType::OUTPUT()),
        (false, false) => None,
    }
}

/// The buffer size a stream asks the driver for: its size when the stream asks for one exact
/// size (its smallest and largest buffer sizes being equal), as a 32-bit signed value;
/// otherwise none, and the driver picks.
pub fn requested_buffer_size(buffer_size_range: (Option<usize>, Option<usize>)) -> (r: Option<i32>)
    ensures
        r == match buffer_size_range {
            (Some(min), Some(max)) => if min == max {
                Some(min as i32)
            } else {
                None::<i32>
            },
            _ => None::<i32>,
        },
{
    match buffer_size_range {
        (Some(min), Some(max)) => {
            if min == max {
                #[verifier::truncate]
                let size = min as i32;
                Some(size)
            } else {
                None
            }
        },
        _ => None,
    }
}

/// Whether a device of this type with `ins` input and `outs` output channels can open
/// `num_channels` channels: a duplex device on both sides, an input or output device on its
/// side; a device of none of these types never.
pub fn channels_fit(device_type: DeviceType, ins: i32, outs: i32, num_channels: i32) -> (r: bool)
    ensures
        r == if device_type@ & 3 == 3 {
            ins >= num_channels && outs >= num_channels
        } else if device_type@ & 1 == 1 {
            ins >= num_channels
        } else if device_type@ & 2 == 2 {
            outs >= num_channels
        } else {
            false
        },
{
    if device_type.contains(DeviceType::DUPLEX()) {
        ins >= num_channels && outs >= num_channels
    } else if device_type.contains(DeviceType::INPUT()) {
        ins >= num_channels
    } else if device_type.contains(DeviceType::OUTPUT()) {
        outs >= num_channels
    } else {
        false
    }
}

/// Whether a stream's buffer size range lies within the driver's range `min` to `max`: only a
/// range with both ends set can.
pub fn buffer_range_fits(buffer_size_range: (Option<usize>, Option<usize>), min: i32, max: i32) -> (r:
    bool)
    ensures
        r == match buffer_size_range {
            (Some(lo), Some(hi)) => lo >= min as usize && hi <= max as usize,
            _ => false,
        },
{
    match buffer_size_range {
        (Some(min_config), Some(max_config)) => {
            #[verifier::truncate]
            let lo = min as usize;
            #[verifier::truncate]
            let hi = max as usize;
            min_config >= lo && max_config <= hi
        },
        _ => false,
    }
}

/// Whether a device supports a configuration: the driver supports its sample rate, the driver
/// reported its channel counts and the configuration's channels (taken as a 32-bit signed
/// count) fit them, and the driver reported its buffer size range and the configuration's
/// range lies within it.
pub fn is_config_supported(
    device_type: DeviceType,
    sample_rate_supported: bool,
    driver_channels: Option<(i32, i32)>,
    driver_buffer_sizes: Option<(i32, i32)>,
    config_channels: u32,
    config_buffer_size_range: (Option<usize>, Option<usize>),
) -> (r: bool)
    ensures
        r == (sample_rate_supported && (match driver_channels {
            Some((ins, outs)) => if device_type@ & 3 == 3 {
                ins >= config_channels as i32 && outs >= config_channels as i32
            } else if device_type@ & 1 == 1 {
                ins >= config_channels as i32
            } else if device_type@ & 2 == 2 {
                outs >= config_channels as i32
            } else {
                false
            },
            None => false,
        }) && (match driver_buffer_sizes {
            Some((min, max)) => match config_buffer_size_range {
                (Some(lo), Some(hi)) => lo >= min as usize && hi <= max as usize,
                _ => false,
            },
            None => false,
        })),
{
    if !sample_rate_supported {
        return false;
    }
    #[verifier::truncate]
    let num_channels = config_channels as i32;
    let channels_ok = match driver_channels {
        Some((ins, outs)) => channels_fit(device_type, ins, outs, num_channels),
        None => false,
    };
    if !channels_ok {
        return false;
    }
    match driver_buffer_sizes {
        Some((min, max)) => buffer_range_fits(config_buffer_size_range, min, max),
        None => false,
    }
}

/// The channel count of the configurations a device offers: the larger side of a duplex
/// device, the input or output side of an input or output device, none for other devices.
pub fn config_channels(device_type: DeviceType, ins: i32, outs: i32) -> (r: Option<u32>)
    ensures
        r == if device_type@ & 3 == 3 {
            Some(
                (if ins >= outs {
                    ins
                } else {
                    outs
                }) as u32,
            )
        } else if device_type@ & 1 == 1 {
            Some(ins as u32)
        } else if device_type@ & 2 == 2 {
            Some(outs as u32)
        } else {
            None::<u32>
        },
{
    if device_type.contains(DeviceType::DUPLEX()) {
        let m = if ins >= outs {
            ins
        } else {
            outs
        };
        #[verifier::truncate]
        let c = m as u32;
        Some(c)
    } else if device_type.contains(DeviceType::INPUT()) {
        #[verifier::truncate]
        let c = ins as u32;
        Some(c)
    } else if device_type.contains(DeviceType::OUTPUT()) {
        #[verifier::truncate]
        let c = outs as u32;
        Some(c)
    } else {
        None
    }
}

/// The buffer size range of a default configuration: the driver's range, both ends set.
pub fn default_buffer_size_range(min: i32, max: i32) -> (r: (Option<usize>, Option<usize>))
    ensures
        r == (Some(min as usize), Some(max as usize)),
{
    #[verifier::truncate]
    let lo = min as usize;
    #[verifier::truncate]
    let hi = max as usize;
    (Some(lo), Some(hi))
}

/// Sample types an ASIO driver reports for its buffers (`AsioSampleType`).
#[derive(Debug, Clone, Copy, PartialEq, Eq, Structural)]
pub enum AsioSampleType {
    /// 16-bit integers, big-endian.
    Int16MSB,
    /// 16-bit integers, little-endian.
    Int16LSB,
    /// 24-bit integers, big-endian.
    Int24MSB,
    /// 24-bit integers, little-endian.
    Int24LSB,
    /// 32-bit integers, big-endian.
    Int32MSB,
    /// 32-bit integers, little-endian.
    Int32LSB,
    /// 32-bit floats, big-endian.
    Float32MSB,
    /// 32-bit floats, little-endian.
    Float32LSB,
    /// Any other sample type, which streams are never opened with.
    Unsupported,
}

/// Byte order of the samples in an ASIO buffer.
#[derive(Debug, Clone, Copy, PartialEq, Eq, Structural)]
pub enum ByteOrder {
    /// Most significant byte first.
    BigEndian,
    /// Least significant byte first.
    LittleEndian,
}

/// How the samples of an ASIO buffer are encoded, and so which conversion to and from float
/// signal values applies.
#[derive(Debug, Clone, Copy, PartialEq, Eq, Structural)]
pub enum SampleEncoding {
    /// 16-bit integers, full scale `i16::MAX`.
    Int16,
    /// 24-bit integers held in 32-bit words, full scale `0x7FFFFF`.
    Int24,
    /// 32-bit integers, full scale `i32::MAX`.
    Int32,
    /// 32-bit IEEE floats, taken by their bits.
    Float32,
}

/// The encoding and byte order of the samples of a buffer of the given (supported) type.
pub fn sample_layout(sample_type: AsioSampleType) -> (r: (SampleEncoding, ByteOrder))
    requires
        sample_type != AsioSampleType::Unsupported,
    ensures
        r == match sample_type {
            AsioSampleType::Int16MSB => (SampleEncoding::Int16, ByteOrder::BigEndian),
            AsioSampleType::Int16LSB => (SampleEncoding::Int16, ByteOrder::LittleEndian),
            AsioSampleType::Int24MSB => (SampleEncoding::Int24, ByteOrder::BigEndian),
            AsioSampleType::Int24LSB => (SampleEncoding::Int24, ByteOrder::LittleEndian),
            AsioSampleType::Int32MSB => (SampleEncoding::Int32, ByteOrder::BigEndian),
            AsioSampleType::Int32LSB => (SampleEncoding::Int32, ByteOrder::LittleEndian),
            AsioSampleType::Float32MSB => (SampleEncoding::Float32, ByteOrder::BigEndian),
            _ => (SampleEncoding::Float32, ByteOrder::LittleEndian),
        },
{
    match sample_type {
        AsioSampleType::Int16MSB => (SampleEncoding::Int16, ByteOrder::BigEndian),
        AsioSampleType::Int16LSB => (SampleEncoding::Int16, ByteOrder::LittleEndian),
        AsioSampleType::Int24MSB => (SampleEncoding::Int24, ByteOrder::BigEndian),
        AsioSampleType::Int24LSB => (SampleEncoding::Int24, ByteOrder::LittleEndian),
        AsioSampleType::Int32MSB => (SampleEncoding::Int32, ByteOrder::BigEndian),
        AsioSampleType::Int32LSB => (SampleEncoding::Int32, ByteOrder::LittleEndian),
        AsioSampleType::Float32MSB => (SampleEncoding::Float32, ByteOrder::BigEndian),
        _ => (SampleEncoding::Float32, ByteOrder::LittleEndian),
    }
}

/// Size in bytes of one sample word of a buffer of the given encoding: 24-bit samples are held
/// in 32-bit words.
pub fn sample_word_bytes(encoding: SampleEncoding) -> (r: usize)
    ensures
        r == match encoding {
            SampleEncoding::Int16 => 2usize,
            _ => 4usize,
        },
{
    match encoding {
        SampleEncoding::Int16 => 2,
        _ => 4,
    }
}

} // verus!
