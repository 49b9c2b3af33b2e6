//! Device descriptions: the types/capabilities of a device and its channels.
use vstd::prelude::*;

verus! {

/// Bits of every flag that `DeviceType` knows of.
pub const ALL_DEVICE_TYPE_BITS: u32 = 31u32;

/// Represents the types/capabilities of an audio device, as a set of flags.
///
/// The flags are `INPUT`, `OUTPUT`, `PHYSICAL`, `APPLICATION` and `DEFAULT`, one bit each, and
/// `DUPLEX`, which is `INPUT` and `OUTPUT` together.
#[derive(Debug, Clone, Copy, PartialEq, Eq, Hash, Structural)]
pub struct DeviceType {
    bits: u32,
}

impl View for DeviceType {
    type V = u32;

    closed spec fn view(&self) -> u32 {
        self.bits
    }
}

#[allow(non_snake_case)]
impl DeviceType {
    /// Device supports audio input.
    pub fn INPUT() -> (r: DeviceType)
        ensures
            r@ == 1,
    {
        DeviceType { bits: 1 }
    }

    /// Device supports audio output.
    pub fn OUTPUT() -> (r: DeviceType)
        ensures
            r@ == 2,
    {
        DeviceType { bits: 2 }
    }

    /// Physical audio device (hardware).
    pub fn PHYSICAL() -> (r: DeviceType)
        ensures
            r@ == 4,
    {
        DeviceType { bits: 4 }
    }

    /// Virtual/software application device.
    pub fn APPLICATION() -> (r: DeviceType)
        ensures
            r@ == 8,
    {
        DeviceType { bits: 8 }
    }

    /// This device is set as default.
    pub fn DEFAULT() -> (r: DeviceType)
        ensures
            r@ == 16,
    {
        DeviceType { bits: 16 }
    }

    /// Device that supports both input and output.
    pub fn DUPLEX() -> (r: DeviceType)
        ensures
            r@ == 3,
    {
        let bits: u32 = Self::INPUT().bits() | Self::OUTPUT().bits();
        assert(1u32 | 2u32 == 3u32) by (bit_vector);
        DeviceType { bits }
    }

    /// The set of no flags.
    pub fn empty() -> (r: DeviceType)
        ensures
            r@ == 0,
    {
        DeviceType { bits: 0 }
    }

    /// The set of every known flag.
    pub fn all() -> (r: DeviceType)
        ensures
            r@ == ALL_DEVICE_TYPE_BITS,
    {
        DeviceType { bits: ALL_DEVICE_TYPE_BITS }
    }

    /// The raw bits of this set of flags.
    pub fn bits(&self) -> (r: u32)
        ensures
            r == self@,
    {
        self.bits
    }

    /// Flags from raw bits; `None` when a bit that is no known flag is set.
    pub fn from_bits(bits: u32) -> (r: Option<DeviceType>)
        ensures
            r is Some <==> bits & !ALL_DEVICE_TYPE_BITS == 0,
            r matches Some(t) ==> t@ == bits,
    {
        if bits & !ALL_DEVICE_TYPE_BITS == 0 {
            Some(DeviceType { bits })
        } else {
            None
        }
    }

    /// Flags from raw bits, dropping the bits that are no known flag.
    pub fn from_bits_truncate(bits: u32) -> (r: DeviceType)
        ensures
            r@ == bits & ALL_DEVICE_TYPE_BITS,
    {
        DeviceType { bits: bits & ALL_DEVICE_TYPE_BITS }
    }

    /// Flags from raw bits, keeping every bit.
    pub fn from_bits_retain(bits: u32) -> (r: DeviceType)
        ensures
            r@ == bits,
    {
        DeviceType { bits }
    }

    /// Whether no flag is set.
    pub fn is_empty(&self) -> (r: bool)
        ensures
            r == (self@ == 0),
    {
        self.bits == 0
    }

    /// Whether every flag of `other` is set in `self`.
    pub fn contains(&self, other: DeviceType) -> (r: bool)
        ensures
            r == (self@ & other@ == other@),
    {
        self.bits & other.bits == other.bits
    }

    /// Whether `self` and `other` have a flag in common.
    pub fn intersects(&self, other: DeviceType) -> (r: bool)
        ensures
            r == (self@ & other@ != 0),
    {
        self.bits & other.bits != 0
    }

    /// The flags set in `self` or in `other`.
    pub fn union(self, other: DeviceType) -> (r: DeviceType)
        ensures
            r@ == self@ | other@,
    {
        DeviceType { bits: self.bits | other.bits }
    }

    /// The flags set in both `self` and `other`.
    pub fn intersection(self, other: DeviceType) -> (r: DeviceType)
        ensures
            r@ == self@ & other@,
    {
        DeviceType { bits: self.bits & other.bits }
    }

    /// Set every flag of `other`.
    pub fn insert(&mut self, other: DeviceType)
        ensures
            final(self)@ == old(self)@ | other@,
    {
        self.bits = self.bits | other.bits;
    }

    /// Clear every flag of `other`.
    pub fn remove(&mut self, other: DeviceType)
        ensures
            final(self)@ == old(self)@ & !other@,
    {
        self.bits = self.bits & !other.bits;
    }

    /// Set (when `value`) or clear (otherwise) every flag of `other`.
    pub fn set(&mut self, other: DeviceType, value: bool)
        ensures
            final(self)@ == if value {
                old(self)@ | other@
            } else {
                old(self)@ & !other@
            },
    {
        if value {
            self.insert(other);
        } else {
            self.remove(other);
        }
    }

    /// Returns true if this device type has the input capability.
    pub fn is_input(&self) -> (r: bool)
        ensures
            r == (self@ & 1 == 1),
    {
        self.contains(Self::INPUT())
    }

    /// Returns true if this device type has the output capability.
    pub fn is_output(&self) -> (r: bool)
        ensures
            r == (self@ & 2 == 2),
    {
        self.contains(Self::OUTPUT())
    }

    /// Returns true if this device type is a physical device.
    pub fn is_physical(&self) -> (r: bool)
        ensures
            r == (self@ & 4 == 4),
    {
        self.contains(Self::PHYSICAL())
    }

    /// Returns true if this device type is an application/virtual device.
    pub fn is_application(&self) -> (r: bool)
        ensures
            r == (self@ & 8 == 8),
    {
        self.contains(Self::APPLICATION())
    }

    /// Returns true if this device is set as default.
    pub fn is_default(&self) -> (r: bool)
        ensures
            r == (self@ & 16 == 16),
    {
        self.contains(Self::DEFAULT())
    }

    /// Returns true if this device type supports both input and output.
    pub fn is_duplex(&self) -> (r: bool)
        ensures
            r == (self@ & 3 == 3),
    {
        self.contains(Self::DUPLEX())
    }
}

/// A device type is duplex exactly when it is both an input and an output.
pub proof fn lemma_duplex_is_input_and_output(t: DeviceType)
    ensures
        (t@ & 3 == 3) <==> (t@ & 1 == 1 && t@ & 2 == 2),
{
    let b = t@;
    assert((b & 3u32 == 3u32) <==> (b & 1u32 == 1u32 && b & 2u32 == 2u32)) by (bit_vector);
}

/// After `set(other, true)` (or `insert`) a device type contains every flag of `other`; after
/// `set(other, false)` (or `remove`) it has none of them; the flags outside `other` keep their
/// values either way.
pub proof fn lemma_set_then_contains(bits: u32, other: u32, value: bool, flag: u32)
    ensures
        value ==> (bits | other) & other == other,
        !value ==> (bits & !other) & other == 0,
        flag & other == 0 ==> ((bits | other) & flag == bits & flag && (bits & !other) & flag
            == bits & flag),
{
    assert((bits | other) & other == other) by (bit_vector);
    assert((bits & !other) & other == 0) by (bit_vector);
    assert(flag & other == 0 ==> ((bits | other) & flag == bits & flag && (bits & !other) & flag
        == bits & flag)) by (bit_vector);
}

/// Two device types are equal exactly when they hold the same flags.
pub proof fn lemma_device_type_eq(a: DeviceType, b: DeviceType)
    ensures
        (a == b) <==> (a@ == b@),
{
}

/// Audio channel description.
#[derive(Debug, Clone)]
pub struct Channel {
    /// Index of the channel in the device
    pub index: usize,
    /// Display name for the channel, if available, else a generic name like "Channel 1"
    pub name: String,
}

} // verus!
