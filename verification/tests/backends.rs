use interflow::backends::alsa;
use interflow::backends::asio;
use interflow::backends::coreaudio;
use interflow::backends::null;
use interflow::backends::pipewire;
use interflow::backends::wasapi;
use interflow::device::DeviceType;
use interflow::backends::asio::AsioSampleType;
use interflow::backends::asio::ByteOrder;
use interflow::backends::asio::SampleEncoding;

#[test]
fn wasapi_buffer_durations() {
    assert_eq!(20_000_000, wasapi::buffer_size_to_duration(96000, 48000));
    assert_eq!(0, wasapi::buffer_size_to_duration(512, 48000));
    assert_eq!(10_000_000, wasapi::buffer_size_to_duration(44100, 44100));
    assert_eq!(0, wasapi::requested_buffer_duration((None, None), 0));
    assert_eq!(10_000_000, wasapi::requested_buffer_duration((None, Some(48000)), 48000));
    assert_eq!(0, wasapi::requested_buffer_duration((Some(480), Some(48000)), 48000));
}

#[test]
fn wasapi_render_frames() {
    assert_eq!(300, wasapi::render_frames_requested(1024, 724, None));
    assert_eq!(256, wasapi::render_frames_requested(1024, 0, Some(256)));
    assert_eq!(0, wasapi::render_frames_requested(1024, 1024, Some(256)));
}

#[test]
fn wasapi_channel_maps() {
    assert_eq!(0b11, wasapi::channel_map_for_count(2));
    assert_eq!(0, wasapi::channel_map_for_count(0));
    assert_eq!(u32::MAX, wasapi::channel_map_for_count(32));
    assert!(wasapi::shared_format_matches(0b101, 2, true));
    assert!(!wasapi::shared_format_matches(0b101, 3, true));
    assert!(!wasapi::shared_format_matches(0b101, 2, false));
}

#[test]
fn wasapi_wave_format() {
    let f = wasapi::config_to_waveformatextensible(0b11, 48000);
    assert_eq!(wasapi::WAVE_FORMAT_EXTENSIBLE, f.format_tag);
    assert_eq!(2, f.channels);
    assert_eq!(48000, f.samples_per_sec);
    assert_eq!(384000, f.avg_bytes_per_sec);
    assert_eq!(8, f.block_align);
    assert_eq!(32, f.bits_per_sample);
    assert_eq!(22, f.cb_size);
    assert_eq!(32, f.samples_per_block);
    assert_eq!(0, f.channel_mask);
    let g = wasapi::config_to_waveformatextensible(0b1010_0001, 44100);
    assert_eq!(3, g.channels);
    assert_eq!(12, g.block_align);
    assert_eq!(529200, g.avg_bytes_per_sec);
}

#[test]
fn wasapi_default_flow_and_checks() {
    assert_eq!(Some(wasapi::DataFlow::Capture), wasapi::default_device_flow(DeviceType::INPUT()));
    assert_eq!(Some(wasapi::DataFlow::Render), wasapi::default_device_flow(DeviceType::OUTPUT()));
    assert_eq!(None, wasapi::default_device_flow(DeviceType::DUPLEX()));
    assert_eq!(None, wasapi::default_device_flow(DeviceType::INPUT().union(DeviceType::DEFAULT())));
    assert!(wasapi::config_check_applies(DeviceType::PHYSICAL().union(DeviceType::OUTPUT())));
    assert!(!wasapi::config_check_applies(DeviceType::OUTPUT()));
    assert!(!wasapi::config_check_applies(DeviceType::PHYSICAL().union(DeviceType::DUPLEX())));
    assert_eq!((2, 0), wasapi::default_config_channels(DeviceType::INPUT(), 2));
    assert_eq!((0, 6), wasapi::default_config_channels(DeviceType::OUTPUT(), 6));
    assert_eq!(1_000, wasapi::qpc_position_to_nanos(10));
}

#[test]
fn wasapi_device_cursor() {
    let mut cursor = wasapi::DeviceListCursor::new(2);
    assert_eq!((2, Some(2)), cursor.size_hint());
    assert_eq!(Some(0), cursor.next());
    assert_eq!(Some(1), cursor.next());
    assert_eq!((0, Some(0)), cursor.size_hint());
    assert_eq!(None, cursor.next());
    assert_eq!(None, cursor.next());
}

#[test]
fn null_backend() {
    let platform = null::Platform;
    let d = platform.default_device(DeviceType::INPUT());
    assert_eq!(DeviceType::INPUT(), d.device_type());
    assert_eq!("Null device", d.name());
    let all = platform.list_devices();
    assert_eq!(2, all.len());
    assert_eq!(DeviceType::OUTPUT(), all[0].0);
    assert_eq!(DeviceType::INPUT(), all[1].0);
    assert_eq!(256, null::stream_frame_count((Some(128), Some(256))));
    assert_eq!(128, null::stream_frame_count((Some(128), None)));
    assert_eq!(512, null::stream_frame_count((None, None)));
    assert_eq!(1, null::stream_frame_count((None, Some(0))));
}

#[test]
fn pipewire_media_classes() {
    assert_eq!(DeviceType::INPUT(), pipewire::device_type_for_media_class("Audio/Source"));
    assert_eq!(DeviceType::OUTPUT(), pipewire::device_type_for_media_class("  audio/sink\n"));
    assert_eq!(DeviceType::OUTPUT(), pipewire::device_type_for_media_class("AUDIO/SINK"));
    assert_eq!(DeviceType::INPUT(), pipewire::device_type_for_media_class("\u{3000}Audio/Source\u{2029}"));
    assert_eq!(DeviceType::empty(), pipewire::device_type_for_media_class("Video/Source"));
    assert_eq!(DeviceType::INPUT(), pipewire::device_type_for_class("audio/source"));
    assert_eq!(DeviceType::OUTPUT(), pipewire::device_type_for_class("audio/sink"));
    assert_eq!(DeviceType::empty(), pipewire::device_type_for_class("Audio/Sink"));
}

#[test]
fn pipewire_devices() {
    let d = pipewire::PipewireDevice::default_device(DeviceType::OUTPUT());
    assert_eq!(None, d.target_node);
    assert_eq!("Interflow stream", d.stream_name);
    let nodes = vec![(42u32, DeviceType::INPUT(), "7".to_string())];
    let list = pipewire::PipewireDevice::from_nodes(&nodes);
    assert_eq!(1, list.len());
    assert_eq!(Some(42), list[0].target_node);
    assert_eq!(Some("7".to_string()), list[0].object_serial);
    let mut d = pipewire::PipewireDevice::from_node(5, DeviceType::OUTPUT(), "9".to_string());
    d.with_stream_name("my stream".to_string());
    assert_eq!("my stream", d.stream_name);
    assert_eq!(Some(5), d.target_node);
}

#[test]
fn pipewire_buffers() {
    assert_eq!(512, pipewire::stream_buffer_size((None, None)));
    assert_eq!(64, pipewire::stream_buffer_size((Some(64), Some(1024))));
    assert_eq!(1024, pipewire::stream_buffer_size((None, Some(1024))));
    assert_eq!((256, 512), pipewire::output_chunk_layout(512, 2, 2));
    assert_eq!((256, 128), pipewire::input_chunk_frames(1024, 2));
    assert_eq!("Capture", pipewire::get_category(pipewire::Direction::Input));
    assert_eq!("Playback", pipewire::get_category(pipewire::Direction::Output));
    let _hole = pipewire::BlackHole::new(vec![1, 2, 3]);
}

#[test]
fn pipewire_stream_channels() {
    assert_eq!((2, 2, 0), pipewire::stream_channels(pipewire::Direction::Input, 2, 6));
    assert_eq!((6, 0, 6), pipewire::stream_channels(pipewire::Direction::Output, 2, 6));
    assert_eq!((0, 0, 0), pipewire::stream_channels(pipewire::Direction::Input, 0, 6));
}

#[test]
fn coreaudio_decisions() {
    assert_eq!(17, coreaudio::device_type_for(true, true).bits());
    assert_eq!(2, coreaudio::device_type_for(false, false).bits());
    assert_eq!(coreaudio::Scope::Input, coreaudio::property_scope(DeviceType::INPUT()));
    assert_eq!(coreaudio::Scope::Output, coreaudio::property_scope(DeviceType::OUTPUT()));
    assert_eq!(Some(256), coreaudio::requested_buffer_frame_size((Some(256), Some(256))));
    assert_eq!(None, coreaudio::requested_buffer_frame_size((Some(128), Some(256))));
    assert_eq!(None, coreaudio::requested_buffer_frame_size((Some(256), None)));
    assert!(coreaudio::opens_input_stream(DeviceType::INPUT()));
    assert!(!coreaudio::opens_input_stream(DeviceType::DUPLEX()));
    assert_eq!((2, 2), coreaudio::default_config_channels(DeviceType::DUPLEX(), 2));
    assert_eq!((0, 2), coreaudio::default_config_channels(DeviceType::OUTPUT(), 2));
}

#[test]
fn coreaudio_channel_names() {
    let channels = coreaudio::channel_map(12);
    assert_eq!(12, channels.len());
    assert_eq!(0, channels[0].index);
    assert_eq!("Channel 0", channels[0].name);
    assert_eq!("Channel 11", channels[11].name);
    assert!(coreaudio::channel_map(0).is_empty());
}

#[test]
fn asio_decisions() {
    assert_eq!(Some(DeviceType::DUPLEX()), asio::device_type_for_channels(2, 2));
    assert_eq!(Some(DeviceType::INPUT()), asio::device_type_for_channels(2, 0));
    assert_eq!(Some(DeviceType::OUTPUT()), asio::device_type_for_channels(0, 8));
    assert_eq!(None, asio::device_type_for_channels(0, 0));
    assert_eq!(Some(64), asio::requested_buffer_size((Some(64), Some(64))));
    assert_eq!(None, asio::requested_buffer_size((Some(32), Some(64))));
    assert!(asio::channels_fit(DeviceType::DUPLEX(), 2, 4, 2));
    assert!(!asio::channels_fit(DeviceType::DUPLEX(), 2, 4, 3));
    assert!(asio::channels_fit(DeviceType::OUTPUT(), 0, 4, 3));
    assert!(!asio::channels_fit(DeviceType::empty(), 4, 4, 1));
    assert!(asio::buffer_range_fits((Some(64), Some(128)), 32, 256));
    assert!(!asio::buffer_range_fits((Some(16), Some(128)), 32, 256));
    assert!(!asio::buffer_range_fits((None, Some(128)), 32, 256));
    assert!(asio::is_config_supported(DeviceType::INPUT(), true, Some((2, 0)), Some((32, 256)), 2, (Some(64), Some(64))));
    assert!(!asio::is_config_supported(DeviceType::INPUT(), false, Some((2, 0)), Some((32, 256)), 2, (Some(64), Some(64))));
    assert!(!asio::is_config_supported(DeviceType::INPUT(), true, None, Some((32, 256)), 2, (Some(64), Some(64))));
    assert_eq!(Some(4), asio::config_channels(DeviceType::DUPLEX(), 2, 4));
    assert_eq!(Some(2), asio::config_channels(DeviceType::INPUT(), 2, 4));
    assert_eq!(None, asio::config_channels(DeviceType::empty(), 2, 4));
    assert_eq!((Some(32), Some(256)), asio::default_buffer_size_range(32, 256));
}

#[test]
fn alsa_devices() {
    let d = alsa::AlsaDevice::default_device(DeviceType::INPUT()).unwrap();
    assert_eq!("default", d.name);
    assert_eq!(alsa::Direction::Capture, d.direction);
    assert_eq!(5, d.device_type().bits());
    let o = alsa::AlsaDevice::default_device(DeviceType::OUTPUT()).unwrap();
    assert_eq!(alsa::Direction::Playback, o.direction);
    assert_eq!(6, o.device_type().bits());
    assert!(alsa::AlsaDevice::default_device(DeviceType::DUPLEX()).is_none());
    let duplex = alsa::AlsaDuplex {
        capture: alsa::AlsaDevice { name: "hw:0".to_string(), direction: alsa::Direction::Capture },
        playback: alsa::AlsaDevice { name: "hw:1".to_string(), direction: alsa::Direction::Playback },
    };
    assert_eq!("hw:0 / hw:1", duplex.name());
    assert_eq!(7, duplex.device_type().bits());
    assert_eq!("ALSA (version unknown)", alsa::AlsaDriver.version());
}

#[test]
fn alsa_configs() {
    assert_eq!((2, 0), alsa::default_config_channels(alsa::Direction::Capture, 2));
    assert_eq!((0, 2), alsa::default_config_channels(alsa::Direction::Playback, 2));
    assert_eq!(Some(64), alsa::buffer_size_bound(Some(64)));
    assert_eq!(None, alsa::buffer_size_bound(None));
    assert_eq!((None, None), alsa::duplex_buffer_size_range(Some(32), Some(64), Some(4096), Some(8192)));
    assert_eq!((Some(0), Some(0)), alsa::duplex_buffer_size_range(None, None, None, Some(8192)));
    assert_eq!(0b11, alsa::stream_channel_map(2));
    assert_eq!(0, alsa::stream_channel_map(0));
    assert_eq!(2, alsa::stream_channel_map(2).count_ones());
    assert_eq!(u32::MAX, alsa::stream_channel_map(40));
}

#[test]
fn alsa_thread_bookkeeping() {
    let mut input = alsa::StreamData::new(2, 256);
    let output = alsa::StreamData::new(2, 512);
    assert_eq!(512, input.buffer_len());
    assert_eq!(200, input.frames_len(100));
    assert_eq!(512, alsa::resolved_max_frame_count(&input, &output));
    assert_eq!(alsa::LoopAction::Wait, alsa::next_action(0, 0));
    assert_eq!(alsa::LoopAction::Process { in_frames: 3, out_frames: 0 }, alsa::next_action(0, 3));
    input.tick_timestamp(100);
    input.tick_timestamp(28);
    assert_eq!(128, input.counter());
    assert_eq!(None, alsa::plan_duplex_period(&input, &output, 0, 0));
    let p = alsa::plan_duplex_period(&input, &output, 1000, 100).unwrap();
    assert_eq!(256, p.in_frames);
    assert_eq!(512, p.in_len);
    assert_eq!(100, p.out_frames);
    assert_eq!(200, p.out_len);
    let empty = alsa::StreamData::new_empty();
    assert_eq!(0, empty.buffer_len());
}

#[test]
fn alsa_pcm_recovery() {
    assert!(alsa::needs_start(alsa::PcmState::Prepared));
    assert!(!alsa::needs_start(alsa::PcmState::Running));
    assert_eq!(alsa::Recovery::Resume, alsa::recovery_for(alsa::PcmState::Suspended, true));
    assert_eq!(alsa::Recovery::Prepare, alsa::recovery_for(alsa::PcmState::Suspended, false));
    assert_eq!(alsa::Recovery::Wait, alsa::recovery_for(alsa::PcmState::Paused, true));
    assert_eq!(alsa::Recovery::Continue, alsa::recovery_for(alsa::PcmState::Running, false));
    assert_eq!(alsa::Recovery::Continue, alsa::recovery_for(alsa::PcmState::XRun, true));
}

#[test]
fn asio_sample_layouts() {
    assert_eq!((SampleEncoding::Int16, ByteOrder::BigEndian), asio::sample_layout(AsioSampleType::Int16MSB));
    assert_eq!((SampleEncoding::Int24, ByteOrder::LittleEndian), asio::sample_layout(AsioSampleType::Int24LSB));
    assert_eq!((SampleEncoding::Int32, ByteOrder::BigEndian), asio::sample_layout(AsioSampleType::Int32MSB));
    assert_eq!((SampleEncoding::Float32, ByteOrder::LittleEndian), asio::sample_layout(AsioSampleType::Float32LSB));
    assert_eq!(2, asio::sample_word_bytes(SampleEncoding::Int16));
    assert_eq!(4, asio::sample_word_bytes(SampleEncoding::Int24));
    assert_eq!(4, asio::sample_word_bytes(SampleEncoding::Float32));
}

#[test]
fn alsa_duplex_steps_advance_counters() {
    let mut data = alsa::DuplexData {
        input: alsa::StreamData::new(1, 64),
        output: alsa::StreamData::new(2, 128),
    };
    assert_eq!(None, data.step(0, 0));
    assert_eq!(0, data.input.counter());
    let p = data.step(100, 500).unwrap();
    assert_eq!((64, 64, 128, 256), (p.in_frames, p.in_len, p.out_frames, p.out_len));
    assert_eq!(64, data.input.counter());
    assert_eq!(128, data.output.counter());
    let q = data.step(10, 0).unwrap();
    assert_eq!((10, 0), (q.in_frames, q.out_frames));
    assert_eq!(74, data.input.counter());
    assert_eq!(128, data.output.counter());
}

#[test]
fn alsa_simplex_step_advances_counter() {
    let mut data = alsa::StreamData::new(2, 256);
    assert_eq!(200, alsa::simplex_step(&mut data, 100));
    assert_eq!(100, data.counter());
    assert_eq!(0, alsa::simplex_step(&mut data, 0));
    assert_eq!(100, data.counter());
}

#[test]
fn pipewire_stream_properties() {
    let p = pipewire::stream_properties(pipewire::Direction::Output, 1, 2, (None, Some(256)), Some("42".to_string()));
    assert_eq!("Audio", p.media_type);
    assert_eq!("Music", p.media_role);
    assert_eq!("Playback", p.media_category);
    assert_eq!("2", p.audio_channels);
    assert_eq!("256", p.force_quantum);
    assert_eq!(Some("42".to_string()), p.target_object);
    let q = pipewire::stream_properties(pipewire::Direction::Input, 12, 2, (None, None), None);
    assert_eq!("Capture", q.media_category);
    assert_eq!("12", q.audio_channels);
    assert_eq!("512", q.force_quantum);
    assert_eq!(None, q.target_object);
}
