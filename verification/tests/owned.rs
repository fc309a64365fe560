use mp3_stream::{
    data_len_safe, DecoderStreamOwned, EngineReply, Frame, FrameInfo, InsufficientData,
};

fn frame_reply(samples: i32, frame_bytes: i32, frame_offset: i32, channels: i32) -> EngineReply {
    EngineReply {
        samples,
        info: FrameInfo {
            frame_bytes,
            frame_offset,
            channels,
            hz: 48000,
            layer: 2,
            bitrate_kbps: 256,
        },
    }
}

fn bytes_of(len: usize) -> Vec<u8> {
    let mut data = Vec::new();
    for i in 0..len {
        data.push((i % 7) as u8 + 1);
    }
    data
}

fn fits_owned(stream: &DecoderStreamOwned, reply: &EngineReply) -> bool {
    reply.check(data_len_safe(stream.remaining().len()))
}

#[test]
fn owned_stream_holds_its_bytes() {
    let copy = bytes_of(300);
    let stream = DecoderStreamOwned::new(bytes_of(300));
    assert_eq!(stream.remaining(), &copy[..]);
    assert_eq!(stream.peeked_len(), None);
}

#[test]
fn owned_next_moves_past_the_frame() {
    let copy = bytes_of(300);
    let mut stream = DecoderStreamOwned::new(bytes_of(300));
    stream.decoder_buf_mut().samples_mut()[5] = 55;
    let reply = frame_reply(1152, 200, 8, 2);
    assert!(fits_owned(&stream, &reply));
    match stream.next(&reply) {
        Ok(Frame::Audio(s)) => {
            assert_eq!(s.bitrate, 256);
            assert_eq!(s.mpeg_layer, 2);
            assert_eq!(s.sample_rate, 48000);
            assert_eq!(s.bytes_consumed, 200);
            assert_eq!(s.source, &copy[8..200]);
            assert_eq!(s.samples.len(), 2304);
            assert_eq!(s.samples[5], 55);
            assert_eq!(s.samples[6], 0);
        }
        _ => panic!("expected an audio frame"),
    }
    assert_eq!(stream.remaining(), &copy[200..]);
    let rest = frame_reply(0, 100, 0, 0);
    assert!(fits_owned(&stream, &rest));
    match stream.next(&rest) {
        Ok(Frame::Unknown { bytes_consumed, source }) => {
            assert_eq!(bytes_consumed, 100);
            assert_eq!(source, &copy[200..300]);
        }
        _ => panic!("expected an unknown frame"),
    }
    assert!(stream.remaining().is_empty());
    let none = frame_reply(0, 0, 0, 0);
    assert!(fits_owned(&stream, &none));
    assert!(matches!(stream.next(&none), Err(InsufficientData)));
    assert!(stream.remaining().is_empty());
}

#[test]
fn owned_peek_does_not_move() {
    let copy = bytes_of(300);
    let mut stream = DecoderStreamOwned::new(bytes_of(300));
    let reply = frame_reply(384, 120, 0, 1);
    assert!(fits_owned(&stream, &reply));
    match stream.peek(&reply) {
        Ok(Frame::Audio(s)) => {
            assert_eq!(s.bytes_consumed, 120);
            assert_eq!(s.sample_count, 384);
            assert!(s.samples.is_empty());
            assert_eq!(s.source, &copy[0..120]);
        }
        _ => panic!("expected an audio frame"),
    }
    assert_eq!(stream.remaining().len(), 300);
    assert_eq!(stream.peeked_len(), Some(120));
}

#[test]
fn owned_skip_uses_what_was_peeked() {
    let mut stream = DecoderStreamOwned::new(bytes_of(300));
    let reply = frame_reply(384, 120, 0, 1);
    assert!(fits_owned(&stream, &reply));
    stream.peek(&reply).unwrap();
    assert_eq!(stream.skip(None), Ok(()));
    assert_eq!(stream.remaining().len(), 180);
    assert_eq!(stream.peeked_len(), None);
}

#[test]
fn owned_skip_peeks_where_nothing_was_peeked() {
    let mut stream = DecoderStreamOwned::new(bytes_of(300));
    let reply = frame_reply(384, 120, 0, 1);
    assert!(fits_owned(&stream, &reply));
    assert_eq!(stream.skip(Some(&reply)), Ok(()));
    assert_eq!(stream.remaining().len(), 180);
    let none = frame_reply(0, 0, 0, 0);
    assert!(fits_owned(&stream, &none));
    assert_eq!(stream.skip(Some(&none)), Err(InsufficientData));
    assert_eq!(stream.remaining().len(), 180);
}

#[test]
fn owned_stream_can_be_moved() {
    let mut stream = DecoderStreamOwned::new(bytes_of(50));
    let reply = frame_reply(0, 20, 0, 0);
    assert!(fits_owned(&stream, &reply));
    stream.next(&reply).unwrap();
    let mut moved = Box::new(stream);
    assert_eq!(moved.remaining().len(), 30);
    let rest = frame_reply(0, 30, 0, 0);
    assert!(fits_owned(&moved, &rest));
    moved.next(&rest).unwrap();
    assert!(moved.remaining().is_empty());
}
