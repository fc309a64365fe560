use mp3_stream::{
    translate_response, Decoder, DecoderBuf, EngineReply, Frame, FrameInfo, InsufficientData,
    MAX_SAMPLES_PER_FRAME,
};

fn reported(
    samples: i32,
    frame_bytes: i32,
    frame_offset: i32,
    channels: i32,
    hz: i32,
    layer: i32,
    bitrate_kbps: i32,
) -> EngineReply {
    EngineReply {
        samples,
        info: FrameInfo { frame_bytes, frame_offset, channels, hz, layer, bitrate_kbps },
    }
}

fn counting_bytes(len: usize) -> Vec<u8> {
    let mut data = Vec::new();
    for i in 0..len {
        data.push((i % 251) as u8);
    }
    data
}

#[test]
fn decoder_buf_starts_zeroed() {
    let buf = DecoderBuf::new();
    assert_eq!(buf.as_slice().len(), MAX_SAMPLES_PER_FRAME);
    assert!(buf.as_slice().iter().all(|s| *s == 0));
}

#[test]
fn decoder_buf_keeps_what_is_written() {
    let mut buf = DecoderBuf::new();
    buf.samples_mut()[0] = -5;
    buf.samples_mut()[2303] = 7;
    assert_eq!(buf.as_slice()[0], -5);
    assert_eq!(buf.as_slice()[1], 0);
    assert_eq!(buf.as_slice()[2303], 7);
    assert_eq!(buf.as_slice().len(), 2304);
}

#[test]
fn peek_reports_metadata_and_no_samples() {
    let data = counting_bytes(500);
    let reply = reported(1152, 417, 0, 2, 44100, 3, 128);
    assert!(reply.check(500));
    let mut decoder = Decoder::new();
    match decoder.peek(&data, &reply) {
        Ok(Frame::Audio(s)) => {
            assert_eq!(s.bitrate, 128);
            assert_eq!(s.channels, 2);
            assert_eq!(s.mpeg_layer, 3);
            assert_eq!(s.sample_rate, 44100);
            assert_eq!(s.bytes_consumed, 417);
            assert_eq!(s.source, &data[0..417]);
            assert_eq!(s.samples.len(), 0);
            assert_eq!(s.sample_count, 1152);
        }
        _ => panic!("expected an audio frame"),
    }
}

#[test]
fn next_shows_the_samples_that_were_decoded() {
    let data = counting_bytes(300);
    let mut buf = DecoderBuf::new();
    for i in 0..MAX_SAMPLES_PER_FRAME {
        buf.samples_mut()[i] = (i as i16) - 1000;
    }
    let reply = reported(384, 104, 0, 1, 32000, 1, 32);
    assert!(reply.check(300));
    let mut decoder = Decoder::new();
    match decoder.next(&data, &mut buf, &reply) {
        Ok(Frame::Audio(s)) => {
            assert_eq!(s.bitrate, 32);
            assert_eq!(s.channels, 1);
            assert_eq!(s.mpeg_layer, 1);
            assert_eq!(s.sample_rate, 32000);
            assert_eq!(s.bytes_consumed, 104);
            assert_eq!(s.source, &data[0..104]);
            assert_eq!(s.sample_count, 384);
            assert_eq!(s.samples.len(), 384);
            assert_eq!(s.samples[0], -1000);
            assert_eq!(s.samples[383], -617);
        }
        _ => panic!("expected an audio frame"),
    }
}

#[test]
fn next_multiplies_samples_by_channels() {
    let data = counting_bytes(1000);
    let mut buf = DecoderBuf::new();
    let reply = reported(576, 209, 0, 2, 22050, 3, 64);
    assert!(reply.check(1000));
    let mut decoder = Decoder::new();
    match decoder.next(&data, &mut buf, &reply) {
        Ok(Frame::Audio(s)) => {
            assert_eq!(s.sample_count, 576);
            assert_eq!(s.channels, 2);
            assert_eq!(s.samples.len(), 1152);
        }
        _ => panic!("expected an audio frame"),
    }
}

#[test]
fn next_can_fill_the_whole_buffer() {
    let data = counting_bytes(417);
    let mut buf = DecoderBuf::new();
    buf.samples_mut()[2303] = 99;
    let reply = reported(1152, 417, 0, 2, 44100, 3, 128);
    assert!(reply.check(417));
    let mut decoder = Decoder::new();
    match decoder.next(&data, &mut buf, &reply) {
        Ok(Frame::Audio(s)) => {
            assert_eq!(s.samples.len(), MAX_SAMPLES_PER_FRAME);
            assert_eq!(s.samples[2303], 99);
            assert_eq!(s.source.len(), 417);
        }
        _ => panic!("expected an audio frame"),
    }
}

#[test]
fn source_leaves_out_the_bytes_passed_over() {
    let data = counting_bytes(600);
    let reply = reported(1152, 430, 13, 2, 48000, 2, 192);
    assert!(reply.check(600));
    let mut decoder = Decoder::new();
    match decoder.peek(&data, &reply) {
        Ok(Frame::Audio(s)) => {
            assert_eq!(s.bytes_consumed, 430);
            assert_eq!(s.source.len(), 417);
            assert_eq!(s.source, &data[13..430]);
            assert_eq!(s.source[0], 13);
        }
        _ => panic!("expected an audio frame"),
    }
}

#[test]
fn bytes_without_samples_are_an_unknown_frame() {
    let data = counting_bytes(64);
    let reply = reported(0, 40, 8, 2, 44100, 3, 128);
    assert!(reply.check(64));
    let mut decoder = Decoder::new();
    match decoder.peek(&data, &reply) {
        Ok(Frame::Unknown { bytes_consumed, source }) => {
            assert_eq!(bytes_consumed, 40);
            assert_eq!(source, &data[8..40]);
        }
        _ => panic!("expected an unknown frame"),
    }
    let mut buf = DecoderBuf::new();
    match decoder.next(&data, &mut buf, &reply) {
        Ok(Frame::Unknown { bytes_consumed, source }) => {
            assert_eq!(bytes_consumed, 40);
            assert_eq!(source, &data[8..40]);
        }
        _ => panic!("expected an unknown frame"),
    }
}

#[test]
fn samples_take_precedence_over_bytes() {
    let data = counting_bytes(64);
    let reply = reported(1, 40, 0, 1, 8000, 3, 8);
    assert!(reply.check(64));
    let mut decoder = Decoder::new();
    assert!(matches!(decoder.peek(&data, &reply), Ok(Frame::Audio(_))));
}

#[test]
fn nothing_found_is_insufficient_data() {
    let data = counting_bytes(64);
    let reply = reported(0, 0, 0, 0, 0, 0, 0);
    assert!(reply.check(64));
    let mut decoder = Decoder::new();
    assert!(matches!(decoder.peek(&data, &reply), Err(InsufficientData)));
    let mut buf = DecoderBuf::new();
    assert!(matches!(decoder.next(&data, &mut buf, &reply), Err(InsufficientData)));
}

#[test]
fn nothing_found_is_insufficient_data_whatever_the_metadata() {
    let data = counting_bytes(64);
    let reply = reported(0, 0, 0, 2, 44100, 3, 128);
    assert!(reply.check(64));
    let mut decoder = Decoder::new();
    assert_eq!(decoder.peek(&data, &reply).unwrap_err(), InsufficientData);
}

#[test]
fn empty_input_is_insufficient_data() {
    let data: Vec<u8> = Vec::new();
    let reply = reported(0, 0, 0, 0, 0, 0, 0);
    assert!(reply.check(0));
    let mut decoder = Decoder::new();
    assert!(decoder.peek(&data, &reply).is_err());
}

#[test]
fn translate_response_serves_both_views() {
    let data = counting_bytes(100);
    let mut buf = DecoderBuf::new();
    buf.samples_mut()[0] = 11;
    buf.samples_mut()[1] = 22;
    buf.samples_mut()[2] = 33;
    let reply = reported(1, 50, 2, 2, 16000, 2, 48);
    assert!(reply.check(100));
    match translate_response(&reply, &data, Some(&buf)) {
        Ok(Frame::Audio(s)) => {
            assert_eq!(s.samples, &[11i16, 22][..]);
            assert_eq!(s.sample_count, 1);
            assert_eq!(s.source, &data[2..50]);
        }
        _ => panic!("expected an audio frame"),
    }
    match translate_response(&reply, &data, None) {
        Ok(Frame::Audio(s)) => {
            assert!(s.samples.is_empty());
            assert_eq!(s.sample_count, 1);
            assert_eq!(s.source, &data[2..50]);
        }
        _ => panic!("expected an audio frame"),
    }
}

#[test]
fn frame_accessors_agree_with_the_fields() {
    let data = counting_bytes(100);
    let mut decoder = Decoder::new();
    let audio = reported(1152, 90, 10, 2, 44100, 3, 128);
    assert!(audio.check(100));
    let frame = decoder.peek(&data, &audio).unwrap();
    assert_eq!(frame.bytes_consumed(), 90);
    assert_eq!(frame.source(), &data[10..90]);
    let unknown = reported(0, 7, 0, 0, 0, 0, 0);
    assert!(unknown.check(100));
    let frame = decoder.peek(&data, &unknown).unwrap();
    assert_eq!(frame.bytes_consumed(), 7);
    assert_eq!(frame.source(), &data[0..7]);
}
