use audio_relay::decoder::{CodecOutput, Decoder, MAX_FRAME_SIZE};
use audio_relay::encoder::{Application, CodecInput, Encoder, MAX_OUT_SIZE};
use audio_relay::err::RError;
use audio_relay::profile::{Channels, StreamProfile};
use audio_relay::sample_type::{batch_from_f32_bits, batch_from_i16, SampleFormat, SampleType};

fn float_stereo() -> StreamProfile {
    StreamProfile::new(48000, 2, SampleFormat::F32).unwrap()
}

fn int_mono_8k() -> StreamProfile {
    StreamProfile::new(8000, 1, SampleFormat::I16).unwrap()
}

fn encoder() -> Encoder {
    Encoder::new(48000, Channels::Stereo, Application::Audio)
}

#[test]
fn limits_are_the_codec_limits() {
    assert_eq!(MAX_OUT_SIZE, 3828);
    assert_eq!(MAX_FRAME_SIZE, 5760);
}

#[test]
fn encoder_keeps_its_settings() {
    let e = Encoder::new(16000, Channels::Mono, Application::Voip);
    assert_eq!(e.sample_rate, 16000);
    assert_eq!(e.channel, Channels::Mono);
    assert_eq!(e.mode, Application::Voip);
    let d = Decoder::new(24000, Channels::Stereo);
    assert_eq!(d.sample_rate, 24000);
    assert_eq!(d.channel, Channels::Stereo);
}

#[test]
fn float_data_goes_to_the_float_entry_point_frame_by_frame() {
    let bits: Vec<u32> = (0..2000).map(|i| (i as f32 / 2000.0).to_bits()).collect();
    let job = encoder().encode(&float_stereo(), batch_from_f32_bits(&bits)).unwrap();
    let mut job = job;
    let mut seen = Vec::new();
    loop {
        let pcm = match job.next_input() {
            None => break,
            Some(CodecInput::Float32(pcm)) => pcm.clone(),
            Some(CodecInput::Int16(_)) => panic!("integer entry point for float data"),
        };
        seen.push(pcm);
        job.accept(Ok(vec![seen.len() as u8; 3])).unwrap();
    }
    assert_eq!(seen, vec![bits[0..960].to_vec(), bits[960..1920].to_vec()]);
    assert_eq!(job.finish().unwrap(), vec![vec![1u8; 3], vec![2u8; 3]]);
}

#[test]
fn integer_data_goes_to_the_integer_entry_point() {
    let raw: Vec<i16> = (0..170).collect();
    let mut job = encoder().encode(&int_mono_8k(), batch_from_i16(&raw)).unwrap();
    match job.next_input() {
        Some(CodecInput::Int16(pcm)) => assert_eq!(pcm, &raw[0..80].to_vec()),
        other => panic!("unexpected {:?}", other),
    }
    job.accept(Ok(vec![9])).unwrap();
    match job.next_input() {
        Some(CodecInput::Int16(pcm)) => assert_eq!(pcm, &raw[80..160].to_vec()),
        other => panic!("unexpected {:?}", other),
    }
    job.accept(Ok(Vec::new())).unwrap();
    assert!(job.next_input().is_none());
    assert_eq!(job.finish().unwrap(), vec![vec![9u8], Vec::new()]);
}

#[test]
fn next_input_does_not_move_on_by_itself() {
    let raw: Vec<i16> = (0..160).collect();
    let job = encoder().encode(&int_mono_8k(), batch_from_i16(&raw)).unwrap();
    let first = format!("{:?}", job.next_input());
    assert_eq!(first, format!("{:?}", job.next_input()));
}

#[test]
fn too_little_data_gives_an_empty_job() {
    let job = encoder().encode(&int_mono_8k(), batch_from_i16(&[1; 79])).unwrap();
    assert!(job.next_input().is_none());
    assert!(job.finish().unwrap().is_empty());
}

#[test]
fn wrong_representation_is_a_configuration_error() {
    let e = encoder().encode(&float_stereo(), batch_from_i16(&[0; 960])).unwrap_err();
    assert!(matches!(e, RError::CofigError(_)));
    assert_eq!(e.message(), "sample representation does not match the stream");
}

#[test]
fn one_stray_sample_in_the_remainder_is_a_configuration_error() {
    let mut data = batch_from_i16(&[0; 100]);
    data.push(SampleType::F32(0));
    let e = encoder().encode(&int_mono_8k(), data).unwrap_err();
    assert!(matches!(e, RError::CofigError(_)));
}

#[test]
fn codec_failure_ends_the_job() {
    let mut job = encoder().encode(&int_mono_8k(), batch_from_i16(&[0; 240])).unwrap();
    job.accept(Ok(vec![1, 2])).unwrap();
    let e = job.accept(Err("opus_encode: invalid argument".to_string())).unwrap_err();
    assert!(matches!(e, RError::CodecError(_)));
    assert_eq!(e.message(), "opus_encode: invalid argument");
    assert!(job.next_input().is_none());
    let e = job.accept(Ok(vec![3])).unwrap_err();
    assert_eq!(e.message(), "no frame awaits a packet");
    let e = job.finish().unwrap_err();
    assert!(matches!(e, RError::CodecError(_)));
    assert_eq!(e.message(), "encoding did not complete");
}

#[test]
fn packet_over_the_limit_is_refused() {
    let mut job = encoder().encode(&int_mono_8k(), batch_from_i16(&[0; 160])).unwrap();
    job.accept(Ok(vec![0; MAX_OUT_SIZE])).unwrap();
    let e = job.accept(Ok(vec![0; MAX_OUT_SIZE + 1])).unwrap_err();
    assert!(matches!(e, RError::CodecError(_)));
    assert_eq!(e.message(), "packet exceeds the size limit");
    assert!(job.finish().is_err());
}

#[test]
fn finish_before_the_last_packet_fails() {
    let mut job = encoder().encode(&int_mono_8k(), batch_from_i16(&[0; 160])).unwrap();
    job.accept(Ok(vec![1])).unwrap();
    let e = job.finish().unwrap_err();
    assert_eq!(e.message(), "encoding did not complete");
}

#[test]
fn packet_without_a_frame_is_refused() {
    let mut job = encoder().encode(&int_mono_8k(), batch_from_i16(&[0; 80])).unwrap();
    job.accept(Ok(vec![1])).unwrap();
    let e = job.accept(Ok(vec![2])).unwrap_err();
    assert!(matches!(e, RError::CodecError(_)));
    assert_eq!(e.message(), "no frame awaits a packet");
    assert!(job.finish().is_err());
}

#[test]
fn single_frame_is_checked_for_length_and_representation() {
    let enc = encoder();
    let p = int_mono_8k();
    let raw: Vec<i16> = (0..80).collect();
    match enc.frame_input(&p, &batch_from_i16(&raw)).unwrap() {
        CodecInput::Int16(pcm) => assert_eq!(pcm, raw),
        other => panic!("unexpected {:?}", other),
    }
    let e = enc.frame_input(&p, &batch_from_i16(&raw[..79])).unwrap_err();
    assert!(matches!(e, RError::CofigError(_)));
    assert_eq!(e.message(), "frame length does not match the stream");
    let e = enc.frame_input(&p, &batch_from_f32_bits(&[0; 80])).unwrap_err();
    assert_eq!(e.message(), "sample representation does not match the stream");
    let e = enc.frame_input(&p, &batch_from_f32_bits(&[0; 81])).unwrap_err();
    assert_eq!(e.message(), "frame length does not match the stream");
}

#[test]
fn silence_goes_in_and_comes_out_as_one_frame() {
    let p = float_stereo();
    let silence = batch_from_f32_bits(&vec![0.0f32.to_bits(); 960]);
    let mut job = encoder().encode(&p, silence).unwrap();
    match job.next_input() {
        Some(CodecInput::Float32(pcm)) => {
            assert_eq!(pcm.len(), 960);
            assert!(pcm.iter().all(|b| f32::from_bits(*b) == 0.0));
        }
        other => panic!("unexpected {:?}", other),
    }
    job.accept(Ok(vec![0xfc, 0xff, 0xfe])).unwrap();
    let packets = job.finish().unwrap();
    assert_eq!(packets.len(), 1);

    let dec = Decoder::new(48000, Channels::Stereo);
    let call = dec.request(&p, packets[0].clone(), false);
    assert_eq!(call.packet, packets[0]);
    assert_eq!(call.format, SampleFormat::F32);
    assert_eq!(call.capacity, MAX_FRAME_SIZE);
    assert!(!call.fec);
    let buffer = CodecOutput::Float32(vec![0.0f32.to_bits(); call.capacity]);
    let frame = dec.decode(&p, &buffer, Ok(480)).unwrap();
    assert_eq!(frame.len() as u64, p.frame_size());
    assert!(frame.iter().all(|s| s.format() == SampleFormat::F32));
}

#[test]
fn decode_takes_the_front_of_the_buffer() {
    let p = int_mono_8k();
    let dec = Decoder::new(8000, Channels::Mono);
    let raw: Vec<i16> = (0..200).collect();
    let frame = dec.decode(&p, &CodecOutput::Int16(raw.clone()), Ok(80)).unwrap();
    assert_eq!(frame, batch_from_i16(&raw[0..80]));
}

#[test]
fn decoded_float_frame_keeps_the_bit_patterns() {
    let p = StreamProfile::new(1000, 2, SampleFormat::F32).unwrap();
    let dec = Decoder::new(1000, Channels::Stereo);
    let bits: Vec<u32> = (0..30).map(|i| (i as f32 * 0.125).to_bits()).collect();
    let frame = dec.decode(&p, &CodecOutput::Float32(bits.clone()), Ok(10)).unwrap();
    assert_eq!(frame, batch_from_f32_bits(&bits[0..20]));
    assert_eq!(f32::from_bits(frame[3].to_f32_bits()), 0.375);
}

#[test]
fn decode_refuses_anything_but_one_frame() {
    let p = int_mono_8k();
    let dec = Decoder::new(8000, Channels::Mono);
    let buffer = CodecOutput::Int16(vec![0i16; 200]);
    for n in [0usize, 79, 81, 160, usize::MAX] {
        let e = dec.decode(&p, &buffer, Ok(n)).unwrap_err();
        assert!(matches!(e, RError::CodecError(_)));
        assert_eq!(e.message(), "decoded length is not one frame");
    }
    let stereo = Decoder::new(8000, Channels::Stereo);
    assert!(stereo.decode(&p, &buffer, Ok(80)).is_err());
    assert_eq!(stereo.decode(&p, &buffer, Ok(40)).unwrap().len(), 80);
}

#[test]
fn decode_refuses_a_buffer_shorter_than_the_frame() {
    let p = int_mono_8k();
    let dec = Decoder::new(8000, Channels::Mono);
    let e = dec.decode(&p, &CodecOutput::Int16(vec![0i16; 79]), Ok(80)).unwrap_err();
    assert_eq!(e.message(), "decoded length is not one frame");
    assert!(dec.decode(&p, &CodecOutput::Int16(vec![0i16; 80]), Ok(80)).is_ok());
}

#[test]
fn decode_refuses_a_buffer_of_another_representation() {
    let p = int_mono_8k();
    let dec = Decoder::new(8000, Channels::Mono);
    let e = dec.decode(&p, &CodecOutput::Float32(vec![0; 200]), Ok(80)).unwrap_err();
    assert!(matches!(e, RError::CofigError(_)));
    assert_eq!(e.message(), "sample representation does not match the stream");
    let e = dec.decode(&p, &CodecOutput::Float32(vec![0; 200]), Ok(81)).unwrap_err();
    assert!(matches!(e, RError::CofigError(_)));
    let e = dec.decode(&float_stereo(), &CodecOutput::Int16(vec![0; 2000]), Ok(480)).unwrap_err();
    assert!(matches!(e, RError::CofigError(_)));
}

#[test]
fn decode_passes_the_codec_failure_on() {
    let p = int_mono_8k();
    let dec = Decoder::new(8000, Channels::Mono);
    for buffer in [CodecOutput::Int16(vec![0; 200]), CodecOutput::Float32(vec![0; 200])] {
        let e = dec.decode(&p, &buffer, Err("opus_decode: corrupted stream".to_string()))
            .unwrap_err();
        assert!(matches!(e, RError::CodecError(_)));
        assert_eq!(e.message(), "opus_decode: corrupted stream");
    }
}

#[test]
fn request_names_the_entry_point_of_the_stream() {
    let dec = Decoder::new(48000, Channels::Stereo);
    let call = dec.request(&float_stereo(), vec![1, 2, 3], true);
    assert!(call.fec);
    assert_eq!(call.format, SampleFormat::F32);
    assert_eq!(call.packet, vec![1, 2, 3]);
    assert_eq!(call.capacity, 5760);
    let call = dec.request(&int_mono_8k(), Vec::new(), false);
    assert_eq!(call.format, SampleFormat::I16);
    assert!(call.packet.is_empty());
    assert!(!call.fec);
}
