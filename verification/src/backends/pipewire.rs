//! Decisions of the PipeWire backend: devices from the registry's nodes, the stream buffer
//! size, and the layout of the data chunks of a stream buffer. The calls into PipeWire stay
//! with the caller, which hands what it read to these functions.
use vstd::prelude::*;
use crate::device::DeviceType;
use crate::backends::coreaudio::decimal;
use crate::backends::coreaudio::usize_to_string;

verus! {

/// Whether `c` has the Unicode `White_Space` property, which `char::is_whitespace` tests.
pub open spec fn is_white_space(c: char) -> bool {
    let u = c as int;
    ||| 0x9 <= u <= 0xD
    ||| u == 0x20
    ||| u == 0x85
    ||| u == 0xA0
    ||| u == 0x1680
    ||| 0x2000 <= u <= 0x200A
    ||| u == 0x2028
    ||| u == 0x2029
    ||| u == 0x202F
    ||| u == 0x205F
    ||| u == 0x3000
}

/// `s` without its leading whitespace.
pub open spec fn trim_start(s: Seq<char>) -> Seq<char>
    decreases s.len(),
{
    if s.len() > 0 && is_white_space(s[0]) {
        trim_start(s.drop_first())
    } else {
        s
    }
}

/// `s` without its trailing whitespace.
pub open spec fn trim_end(s: Seq<char>) -> Seq<char>
    decreases s.len(),
{
    if s.len() > 0 && is_white_space(s.last()) {
        trim_end(s.drop_last())
    } else {
        s
    }
}

/// `s` without leading and trailing whitespace.
pub open spec fn trimmed(s: Seq<char>) -> Seq<char> {
    trim_end(trim_start(s))
}

/// What `str::to_lowercase` gives for a string: its lowercase equivalent.
pub uninterp spec fn lowercased(s: Seq<char>) -> Seq<char>;

/// `str::trim`: the string without leading and trailing whitespace, whitespace being the
/// characters with the Unicode `White_Space` property.
#[verifier::external_body]
fn str_trim(s: &str) -> (r: &str)
    ensures
        r@ == trimmed(s@),
{
    s.trim()
}

/// `str::to_lowercase`
#[verifier::external_body]
fn str_to_lowercase(s: &str) -> (r: String)
    ensures
        r@ == lowercased(s@),
{
    s.to_lowercase()
}

/// The device type flags of a node whose media class is `class`: the input flag for
/// "audio/source", the output flag for "audio/sink", none for other classes.
pub open spec fn class_device_bits(class: Seq<char>) -> u32 {
    if class == "audio/source"@ {
        1u32
    } else if class == "audio/sink"@ {
        2u32
    } else {
        0u32
    }
}

/// Only audio sources are inputs and only audio sinks are outputs: the flags of a class are the
/// input flag exactly for "audio/source", the output flag exactly for "audio/sink", and none
/// for every other class (streams of applications, video nodes, ...).
pub proof fn lemma_class_device_bits(class: Seq<char>)
    ensures
        class_device_bits(class) == 1 <==> class == "audio/source"@,
        class_device_bits(class) == 2 <==> class == "audio/sink"@,
        class_device_bits(class) == 0 <==> (class != "audio/source"@ && class != "audio/sink"@),
{
    reveal_strlit("audio/source");
    reveal_strlit("audio/sink");
    assert("audio/source"@.len() != "audio/sink"@.len());
}

/// The device type of a node whose media class, already trimmed and in lowercase, is `class`:
/// an input for "audio/source", an output for "audio/sink", nothing otherwise.
pub fn device_type_for_class(class: &str) -> (r: DeviceType)
    ensures
        r@ == class_device_bits(class@),
        r@ == 1 <==> class@ == "audio/source"@,
        r@ == 2 <==> class@ == "audio/sink"@,
        r@ == 0 <==> (class@ != "audio/source"@ && class@ != "audio/sink"@),
{
    proof {
        lemma_class_device_bits(class@);
    }
    let class = String::from_str(class);
    let source = String::from_str("audio/source");
    let sink = String::from_str("audio/sink");
    if class == source {
        DeviceType::INPUT()
    } else if class == sink {
        DeviceType::OUTPUT()
    } else {
        DeviceType::empty()
    }
}

/// The device type of a node of the given media class: an input for audio sources, an output
/// for audio sinks (compared trimmed and in lowercase), nothing for other classes.
pub fn device_type_for_media_class(media_class: &str) -> (r: DeviceType)
    ensures
        r@ == class_device_bits(lowercased(trimmed(media_class@))),
        r@ == 1 <==> lowercased(trimmed(media_class@)) == "audio/source"@,
        r@ == 2 <==> lowercased(trimmed(media_class@)) == "audio/sink"@,
        r@ == 0 <==> (lowercased(trimmed(media_class@)) != "audio/source"@ && lowercased(
            trimmed(media_class@),
        ) != "audio/sink"@),
{
    let lower = str_to_lowercase(str_trim(media_class));
    device_type_for_class(lower.as_str())
}

/// A PipeWire device: a node of the graph (or the default one), of a type, with the name of
/// the streams opened on it.
pub struct PipewireDevice {
    /// Node the streams connect to; `None` for the default node.
    pub target_node: Option<u32>,
    /// Type of the device.
    pub device_type: DeviceType,
    /// Serial of the node's object, when it has one.
    pub object_serial: Option<String>,
    /// Name given to the streams opened on this device.
    pub stream_name: String,
}

/// Name of the streams of a device that no name was given.
pub open spec fn default_stream_name() -> Seq<char> {
    seq!['I', 'n', 't', 'e', 'r', 'f', 'l', 'o', 'w', ' ', 's', 't', 'r', 'e', 'a', 'm']
}

/// The name "Interflow stream".
fn default_stream_name_string() -> (r: String)
    ensures
        r@ == default_stream_name(),
{
    let s = String::from_str("Interflow stream");
    proof {
        reveal_strlit("Interflow stream");
    }
    s
}

impl PipewireDevice {
    /// The default device of a type: no target node, no serial, the default stream name.
    pub fn default_device(device_type: DeviceType) -> (r: PipewireDevice)
        ensures
            r.target_node is None,
            r.device_type == device_type,
            r.object_serial is None,
            r.stream_name@ == default_stream_name(),
    {
        PipewireDevice {
            target_node: None,
            device_type,
            object_serial: None,
            stream_name: default_stream_name_string(),
        }
    }

    /// The device of a node listed by the registry, from its id, type and object serial, with
    /// the default stream name.
    pub fn from_node(id: u32, device_type: DeviceType, object_serial: String) -> (r: PipewireDevice)
        ensures
            r.target_node == Some(id),
            r.device_type == device_type,
            r.object_serial == Some(object_serial),
            r.stream_name@ == default_stream_name(),
    {
        PipewireDevice {
            target_node: Some(id),
            device_type,
            object_serial: Some(object_serial),
            stream_name: default_stream_name_string(),
        }
    }

    /// The devices of the nodes listed by the registry, in order.
    pub fn from_nodes(nodes: &Vec<(u32, DeviceType, String)>) -> (r: Vec<PipewireDevice>)
        ensures
            r@.len() == nodes@.len(),
            forall|i: int|
                0 <= i < nodes@.len() ==> {
                    &&& (#[trigger] r@[i]).target_node == Some(nodes@[i].0)
                    &&& r@[i].device_type == nodes@[i].1
                    &&& r@[i].object_serial matches Some(s) && s@ == nodes@[i].2@
                    &&& r@[i].stream_name@ == default_stream_name()
                },
    {
        let mut out: Vec<PipewireDevice> = Vec::new();
        let mut i: usize = 0;
        while i < nodes.len()
            invariant
                i <= nodes@.len(),
                out@.len() == i,
                forall|k: int|
                    0 <= k < i ==> {
                        &&& (#[trigger] out@[k]).target_node == Some(nodes@[k].0)
                        &&& out@[k].device_type == nodes@[k].1
                        &&& out@[k].object_serial matches Some(s) && s@ == nodes@[k].2@
                        &&& out@[k].stream_name@ == default_stream_name()
                    },
            decreases nodes@.len() - i,
        {
            let node = &nodes[i];
            let serial = node.2.clone();
            out.push(Self::from_node(node.0, node.1, serial));
            i = i + 1;
        }
        out
    }

    /// Set the name given to the streams opened on this device; nothing else changes.
    pub fn with_stream_name(&mut self, name: String)
        ensures
            final(self).stream_name == name,
            final(self).target_node == old(self).target_node,
            final(self).device_type == old(self).device_type,
            final(self).object_serial == old(self).object_serial,
    {
        self.stream_name = name;
    }
}

/// The PipeWire driver.
pub struct PipewireDriver;

impl PipewireDriver {
    /// Driver display name.
    pub const DISPLAY_NAME: &'static str = "Pipewire";
}

/// Frames per period that a stream expects when its configuration sets no buffer size.
pub const DEFAULT_EXPECTED_FRAMES: usize = 512usize;

/// Frames per period of a stream: the smallest buffer size of the configuration, else its
/// largest, else 512.
pub open spec fn expected_frames(range: (Option<usize>, Option<usize>)) -> usize {
    match range.0 {
        Some(v) => v,
        None => match range.1 {
            Some(v) => v,
            None => DEFAULT_EXPECTED_FRAMES,
        },
    }
}

/// A stream's frames per period follow its configured buffer size range: the minimum whenever
/// it is set, whatever the maximum; the maximum when only that is set; 512 when neither is.
pub proof fn lemma_expected_frames(min: Option<usize>, max: Option<usize>)
    ensures
        min matches Some(m) ==> expected_frames((min, max)) == m,
        min is None ==> (max matches Some(x) ==> expected_frames((min, max)) == x),
        min is None && max is None ==> expected_frames((min, max)) == 512,
{
}

/// Frames per period of a stream: the smallest buffer size of the configuration, else its
/// largest, else 512.
pub fn stream_buffer_size(range: (Option<usize>, Option<usize>)) -> (r: usize)
    ensures
        r == expected_frames(range),
        range.0 matches Some(m) ==> r == m,
        range.0 is None ==> (range.1 matches Some(x) ==> r == x),
        range.0 is None && range.1 is None ==> r == 512,
{
    match range.0 {
        Some(v) => v,
        None => match range.1 {
            Some(v) => v,
            None => DEFAULT_EXPECTED_FRAMES,
        },
    }
}

/// Direction of a PipeWire stream.
#[derive(Debug, Clone, Copy, PartialEq, Eq, Structural)]
pub enum Direction {
    /// The stream takes data from the graph.
    Input,
    /// The stream gives data to the graph.
    Output,
}

/// Media category of a stream of the given direction: "Capture" for input streams,
/// "Playback" for output streams.
pub fn get_category(direction: Direction) -> (r: &'static str)
    ensures
        r@ == match direction {
            Direction::Input => "Capture"@,
            Direction::Output => "Playback"@,
        },
{
    match direction {
        Direction::Input => "Capture",
        Direction::Output => "Playback",
    }
}

/// Channels of a stream of the given direction, from the configured input and output channel
/// counts: the number of channels the stream carries, then the resolved input and output
/// channel counts (the side the stream does not run on has none).
pub fn stream_channels(direction: Direction, input_channels: usize, output_channels: usize) -> (r: (
    usize,
    usize,
    usize,
))
    ensures
        r == match direction {
            Direction::Input => (input_channels, input_channels, 0usize),
            Direction::Output => (output_channels, 0usize, output_channels),
        },
{
    let channels = if direction == Direction::Input {
        input_channels
    } else {
        output_channels
    };
    let resolved_input = if direction == Direction::Input {
        channels
    } else {
        0
    };
    let resolved_output = if direction == Direction::Output {
        channels
    } else {
        0
    };
    (channels, resolved_input, resolved_output)
}

/// The properties a stream is created with.
pub struct StreamProperties {
    /// Media type: always "Audio".
    pub media_type: String,
    /// Media role: always "Music".
    pub media_role: String,
    /// Media category: "Capture" or "Playback", after the direction.
    pub media_category: String,
    /// Number of channels, in decimal.
    pub audio_channels: String,
    /// Quantum the node is forced to, in frames, in decimal.
    pub force_quantum: String,
    /// Object the stream connects to, when the device has one.
    pub target_object: Option<String>,
}

/// The properties of a stream of the given direction on a device whose object has the given
/// serial (if any), from the configured channel counts and buffer size range: an audio stream
/// for music, of the direction's category, with the channels of its direction, forced to the
/// stream's buffer size, targeting the device's object.
pub fn stream_properties(
    direction: Direction,
    input_channels: usize,
    output_channels: usize,
    buffer_size_range: (Option<usize>, Option<usize>),
    device_object_serial: Option<String>,
) -> (r: StreamProperties)
    ensures
        r.media_type@ == "Audio"@,
        r.media_role@ == "Music"@,
        r.media_category@ == match direction {
            Direction::Input => "Capture"@,
            Direction::Output => "Playback"@,
        },
        r.audio_channels@ == decimal(
            match direction {
                Direction::Input => input_channels,
                Direction::Output => output_channels,
            } as nat,
        ),
        r.force_quantum@ == decimal(expected_frames(buffer_size_range) as nat),
        r.target_object == device_object_serial,
{
    let (channels, _, _) = stream_channels(direction, input_channels, output_channels);
    let buffer_size = stream_buffer_size(buffer_size_range);
    StreamProperties {
        media_type: String::from_str("Audio"),
        media_role: String::from_str("Music"),
        media_category: String::from_str(get_category(direction)),
        audio_channels: usize_to_string(channels),
        force_quantum: usize_to_string(buffer_size),
        target_object: device_object_serial,
    }
}

/// Layout of the frames an output stream rendered across the data chunks of a buffer: each
/// chunk takes an equal share of whole frames, and so that many interleaved samples.
pub fn output_chunk_layout(provided_frames: usize, num_chunks: usize, channels: usize) -> (r: (
    usize,
    usize,
))
    requires
        num_chunks > 0,
        (provided_frames / num_chunks) * channels <= usize::MAX,
    ensures
        r.0 == provided_frames / num_chunks,
        r.1 == (provided_frames / num_chunks) * channels,
{
    let buffer_size_per_chunk = provided_frames / num_chunks;
    let samples_per_chunk = buffer_size_per_chunk * channels;
    (buffer_size_per_chunk, samples_per_chunk)
}

/// The frames an input chunk of `chunk_bytes` bytes of 32-bit float samples holds: its whole
/// samples, in whole frames of `channels` samples.
pub fn input_chunk_frames(chunk_bytes: u32, channels: usize) -> (r: (usize, usize))
    requires
        channels > 0,
    ensures
        r.0 == chunk_bytes / 4,
        r.1 == ((chunk_bytes / 4) as nat) / (channels as nat),
{
    let samples = chunk_bytes as usize / 4;
    let frames = samples / channels;
    (samples, frames)
}

/// Allows you to send a value to a black hole. It keeps it alive as long as it is in scope, but
/// you cannot get the value back in any way.
pub struct BlackHole<T>(T);

impl<T> BlackHole<T> {
    /// The value kept alive (for specifications only).
    pub closed spec fn held(&self) -> T {
        self.0
    }

    /// Send `wrapped` into the black hole.
    pub fn new(wrapped: T) -> (r: BlackHole<T>)
        ensures
            r.held() == wrapped,
    {
        BlackHole(wrapped)
    }
}

} // verus!
