//! Null backend. Accepts any stream configuration, does nothing.
use vstd::prelude::*;
use crate::device::DeviceType;

verus! {

/// Platform type for the null backend.
#[derive(Debug, Clone, Copy, Default)]
pub struct Platform;

/// Device of the null backend, of the given type.
#[derive(Debug, Clone, Copy)]
pub struct Device(pub DeviceType);

/// Frames per period of a stream that none of the stream's buffer sizes sets.
pub const DEFAULT_FRAME_COUNT: usize = 512usize;

impl Platform {
    /// Platform display name.
    pub const NAME: &'static str = "Null";

    /// The default device of the given type: a null device of that type.
    pub fn default_device(&self, device_type: DeviceType) -> (r: Device)
        ensures
            r.0 == device_type,
    {
        Device(device_type)
    }

    /// Every device of the platform: a null output device, then a null input device.
    pub fn list_devices(&self) -> (r: Vec<Device>)
        ensures
            r@.len() == 2,
            r@[0].0@ == 2,
            r@[1].0@ == 1,
    {
        let mut v: Vec<Device> = Vec::new();
        v.push(Device(DeviceType::OUTPUT()));
        v.push(Device(DeviceType::INPUT()));
        v
    }
}

impl Device {
    /// Device display name.
    pub fn name(&self) -> (r: &'static str)
        ensures
            r@ == "Null device"@,
    {
        "Null device"
    }

    /// The type given at construction.
    pub fn device_type(&self) -> (r: DeviceType)
        ensures
            r == self.0,
    {
        self.0
    }
}

/// The number of frames each period of a null stream processes: the largest buffer size of
/// the configuration, else its smallest, else 512, and at least one.
pub fn stream_frame_count(buffer_size_range: (Option<usize>, Option<usize>)) -> (r: usize)
    ensures
        r == {
            let n = match buffer_size_range.1 {
                Some(v) => v,
                None => match buffer_size_range.0 {
                    Some(v) => v,
                    None => DEFAULT_FRAME_COUNT,
                },
            };
            if n < 1 {
                1
            } else {
                n
            }
        },
        r >= 1,
{
    let n = match buffer_size_range.1 {
        Some(v) => v,
        None => match buffer_size_range.0 {
            Some(v) => v,
            None => DEFAULT_FRAME_COUNT,
        },
    };
    if n < 1 {
        1
    } else {
        n
    }
}

} // verus!
