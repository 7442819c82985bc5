use audio_relay::frame::frame;
use audio_relay::profile::{Channels, DeviceConfig, DeviceFormat, StreamProfile};
use audio_relay::sample_type::{SampleFormat, SampleType};

fn stereo_48k() -> StreamProfile {
    StreamProfile::new(48000, 2, SampleFormat::F32).unwrap()
}

fn ramp(n: usize) -> Vec<SampleType> {
    (0..n).map(|i| SampleType::F32((i as f32 / 4096.0).to_bits())).collect()
}

#[test]
fn stereo_48k_frame_is_960_samples() {
    assert_eq!(stereo_48k().frame_size(), 960);
}

#[test]
fn mono_44100_frame_is_440_samples() {
    let p = StreamProfile::new(44100, 1, SampleFormat::I16).unwrap();
    assert_eq!(p.frame_size(), 440);
}

#[test]
fn two_thousand_samples_give_two_frames() {
    let data = ramp(2000);
    let frames = frame(&data, &stereo_48k());
    assert_eq!(frames.len(), 2);
    assert_eq!(frames[0], data[0..960].to_vec());
    assert_eq!(frames[1], data[960..1920].to_vec());
    let used: usize = frames.iter().map(|f| f.len()).sum();
    assert_eq!(used, 1920);
    assert_eq!(data.len() - used, 80);
}

#[test]
fn frames_put_end_to_end_give_the_input_back() {
    let data = ramp(2880);
    let frames = frame(&data, &stereo_48k());
    assert_eq!(frames.len(), 2880 / 960);
    let joined: Vec<SampleType> = frames.into_iter().flatten().collect();
    assert_eq!(joined, data);
}

#[test]
fn remainder_is_left_out_and_no_frame_is_short() {
    let data = ramp(2879);
    let frames = frame(&data, &stereo_48k());
    assert_eq!(frames.len(), 2);
    assert!(frames.iter().all(|f| f.len() == 960));
    let joined: Vec<SampleType> = frames.into_iter().flatten().collect();
    assert_eq!(joined, data[..2879 - 2879 % 960].to_vec());
}

#[test]
fn fewer_samples_than_one_frame_give_no_frame() {
    assert!(frame(&ramp(959), &stereo_48k()).is_empty());
    assert!(frame(&ramp(0), &stereo_48k()).is_empty());
}

#[test]
fn exactly_one_frame() {
    let data = ramp(960);
    let frames = frame(&data, &stereo_48k());
    assert_eq!(frames, vec![data]);
}

#[test]
fn zero_frame_length_gives_no_frame() {
    let p = StreamProfile::new(400, 2, SampleFormat::I16).unwrap();
    assert_eq!(p.frame_size(), 0);
    assert!(frame(&ramp(100), &p).is_empty());
}

#[test]
fn framing_works_on_raw_integers() {
    let p = StreamProfile::new(1000, 1, SampleFormat::I16).unwrap();
    let data: Vec<i16> = (0..25).collect();
    let frames = frame(&data, &p);
    assert_eq!(frames, vec![(0..10).collect::<Vec<i16>>(), (10..20).collect::<Vec<i16>>()]);
}

#[test]
fn framing_is_deterministic() {
    let data = ramp(5000);
    assert_eq!(frame(&data, &stereo_48k()), frame(&data, &stereo_48k()));
}

#[test]
fn profile_keeps_what_it_was_made_with() {
    let p = StreamProfile::new(16000, 1, SampleFormat::I16).unwrap();
    assert_eq!(p.sample_rate(), 16000);
    assert_eq!(p.channels(), 1);
    assert_eq!(p.format(), SampleFormat::I16);
    assert_eq!(p.layout(), Channels::Mono);
    assert_eq!(stereo_48k().layout(), Channels::Stereo);
}

#[test]
fn profile_refuses_other_channel_counts() {
    for channels in [0u8, 3, 6, 255] {
        let r = StreamProfile::new(48000, channels, SampleFormat::I16);
        match r {
            Err(e) => {
                assert!(matches!(e, audio_relay::err::RError::DeviceError(_)));
                assert_eq!(e.message(), "unsupported channel count");
            }
            Ok(_) => panic!("accepted {} channels", channels),
        }
    }
}

#[test]
fn negotiate_takes_int16_and_float32() {
    let cfg = DeviceConfig { channels: 2, sample_rate: 48000, format: DeviceFormat::F32 };
    let p = StreamProfile::negotiate(&cfg).unwrap();
    assert_eq!(p.format(), SampleFormat::F32);
    assert_eq!(p.channels(), 2);
    assert_eq!(p.sample_rate(), 48000);
    let cfg = DeviceConfig { channels: 1, sample_rate: 8000, format: DeviceFormat::I16 };
    let p = StreamProfile::negotiate(&cfg).unwrap();
    assert_eq!(p.format(), SampleFormat::I16);
    assert_eq!(p.frame_size(), 80);
}

#[test]
fn negotiate_refuses_other_formats_by_name() {
    for (format, name) in [
        (DeviceFormat::I8, "i8"),
        (DeviceFormat::I32, "i32"),
        (DeviceFormat::I64, "i64"),
        (DeviceFormat::U8, "u8"),
        (DeviceFormat::U16, "u16"),
        (DeviceFormat::U32, "u32"),
        (DeviceFormat::U64, "u64"),
        (DeviceFormat::F64, "f64"),
    ] {
        assert_eq!(format.name(), name);
        let cfg = DeviceConfig { channels: 2, sample_rate: 48000, format };
        let e = StreamProfile::negotiate(&cfg).unwrap_err();
        assert!(matches!(e, audio_relay::err::RError::DeviceError(_)));
        assert_eq!(e.message(), format!("Unsupported sample format {}", name));
    }
    assert_eq!(DeviceFormat::I16.name(), "i16");
    assert_eq!(DeviceFormat::F32.name(), "f32");
}

#[test]
fn format_is_looked_at_before_the_channel_count() {
    for channels in [0u16, 3, 8, 256, 257] {
        let cfg = DeviceConfig { channels, sample_rate: 48000, format: DeviceFormat::F64 };
        let e = StreamProfile::negotiate(&cfg).unwrap_err();
        assert_eq!(e.message(), "Unsupported sample format f64");
    }
}

#[test]
fn negotiate_refuses_other_channel_counts() {
    for channels in [0u16, 3, 8, 256, 257] {
        for format in [DeviceFormat::I16, DeviceFormat::F32] {
            let cfg = DeviceConfig { channels, sample_rate: 48000, format };
            let e = StreamProfile::negotiate(&cfg).unwrap_err();
            assert!(matches!(e, audio_relay::err::RError::DeviceError(_)));
            assert_eq!(e.message(), "unsupported channel count");
        }
    }
}
