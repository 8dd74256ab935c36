use metropipe::exchange::{
    provider_poll, provider_respond, read_payload, write_payload, ProviderEvent, Request,
    RequestError, Step,
};
use metropipe::protocol::{
    channel_file_size, channel_header, read_error_code, read_payload_size, read_status, read_u32, write_payload_size,
    write_status, write_u32, DEFAULT_CAPACITY, HEADER_SIZE, OFFSET_CAS_LOCK, OFFSET_ERROR_CODE,
    OFFSET_MAX_CAPACITY, OFFSET_PAYLOAD, OFFSET_PAYLOAD_SIZE, OFFSET_STATUS, STATUS_CONSUMER_REQ,
    STATUS_ERROR, STATUS_IDLE, STATUS_PROVIDER_ACK, STATUS_PROVIDER_RES,
};

#[test]
fn test_write_read_u32() {
    let mut buf = vec![0u8; 64];
    write_u32(&mut buf, 0, 42);
    assert_eq!(read_u32(&buf, 0), 42);
}

#[test]
fn test_status_constants() {
    assert_eq!(STATUS_IDLE, 0);
    assert_eq!(STATUS_CONSUMER_REQ, 1);
    assert_eq!(STATUS_PROVIDER_RES, 3);
    assert_eq!(STATUS_ERROR, 4);
}

#[test]
fn test_header_offsets() {
    assert_eq!(OFFSET_PAYLOAD, 32);
    assert_eq!(HEADER_SIZE, 32);
}

#[test]
fn header_layout_matches_the_documented_table() {
    assert_eq!(OFFSET_STATUS, 0);
    assert_eq!(OFFSET_CAS_LOCK, 4);
    assert_eq!(OFFSET_PAYLOAD_SIZE, 8);
    assert_eq!(OFFSET_MAX_CAPACITY, 12);
    assert_eq!(OFFSET_ERROR_CODE, 16);
    assert_eq!(STATUS_PROVIDER_ACK, 2);
    assert_eq!(DEFAULT_CAPACITY, 4096);
}

#[test]
fn u32_fields_are_little_endian() {
    let mut buf = vec![0u8; 8];
    write_u32(&mut buf, 2, 0x0403_0201);
    assert_eq!(buf, vec![0, 0, 1, 2, 3, 4, 0, 0]);
    assert_eq!(read_u32(&[0xff, 0xff, 0xff, 0xff], 0), u32::MAX);
    assert_eq!(read_u32(&[0x78, 0x56, 0x34, 0x12, 9], 0), 0x1234_5678);
}

#[test]
fn writing_a_field_leaves_other_fields_alone() {
    let mut buf = vec![7u8; 40];
    write_payload_size(&mut buf, 300);
    assert_eq!(read_payload_size(&buf), 300);
    assert_eq!(read_u32(&buf, 4), 0x0707_0707);
    assert_eq!(read_u32(&buf, 12), 0x0707_0707);
    write_status(&mut buf, STATUS_ERROR);
    assert_eq!(read_status(&buf), STATUS_ERROR);
    assert_eq!(read_payload_size(&buf), 300);
    write_u32(&mut buf, OFFSET_ERROR_CODE, 17);
    assert_eq!(read_error_code(&buf), 17);
}

#[test]
fn channel_file_holds_header_and_payload() {
    assert_eq!(channel_file_size(4096), 4128);
    assert_eq!(channel_file_size(0), 32);
}

fn run_consumer_step(req: &mut Request, buf: &mut [u8], now: u64) -> Option<Result<Vec<u8>, RequestError>> {
    match req.step(buf, now) {
        Step::Wait => None,
        Step::Done(r) => Some(r),
    }
}

/// A channel buffer with a fresh header that records `capacity`.
fn channel(capacity: usize, payload_room: usize) -> Vec<u8> {
    let mut buf = channel_header(capacity);
    buf.extend(std::iter::repeat(0u8).take(payload_room));
    buf
}

#[test]
fn new_channel_header_records_its_capacity() {
    let h = channel_header(4096);
    assert_eq!(h.len(), HEADER_SIZE);
    assert_eq!(read_u32(&h, OFFSET_MAX_CAPACITY), 4096);
    assert_eq!(read_status(&h), STATUS_IDLE);
    assert_eq!(read_u32(&h, OFFSET_CAS_LOCK), 0);
    assert_eq!(read_u32(&channel_header(usize::MAX), OFFSET_MAX_CAPACITY), u32::MAX);
}

#[test]
fn request_and_response_travel_through_the_buffer() {
    let mut buf = channel(64, 64);
    let mut req = Request::new(b"New York", 5000, 100);
    assert!(run_consumer_step(&mut req, &mut buf, 100).is_none());
    assert_eq!(read_status(&buf), STATUS_CONSUMER_REQ);
    assert_eq!(read_payload_size(&buf), 8);
    assert_eq!(read_u32(&buf, OFFSET_CAS_LOCK), 0);
    match provider_poll(&mut buf) {
        ProviderEvent::Request(r) => assert_eq!(r, b"New York".to_vec()),
        _ => panic!("expected a request"),
    }
    assert!(run_consumer_step(&mut req, &mut buf, 101).is_none());
    let n = provider_respond(&mut buf, b"sunny, 72F");
    assert_eq!(n, Some(10));
    assert_eq!(read_status(&buf), STATUS_PROVIDER_RES);
    let out = run_consumer_step(&mut req, &mut buf, 102).unwrap();
    assert_eq!(out.ok().unwrap(), b"sunny, 72F".to_vec());
    assert_eq!(read_status(&buf), STATUS_IDLE);
    assert!(req.is_finished());
}

#[test]
fn busy_channel_times_out_waiting_for_idle() {
    let mut buf = channel(8, 8);
    write_status(&mut buf, STATUS_PROVIDER_ACK);
    let mut req = Request::new(b"x", 10, 1000);
    assert!(run_consumer_step(&mut req, &mut buf, 1005).is_none());
    assert!(run_consumer_step(&mut req, &mut buf, 1010).is_none());
    let r = run_consumer_step(&mut req, &mut buf, 1011).unwrap();
    match r {
        Err(e) => assert_eq!(e.message(), "timeout waiting for IDLE"),
        Ok(_) => panic!("expected a timeout"),
    }
    assert_eq!(read_status(&buf), STATUS_PROVIDER_ACK);
}

#[test]
fn held_lock_keeps_the_consumer_waiting() {
    let mut buf = channel(8, 8);
    write_u32(&mut buf, OFFSET_CAS_LOCK, 1);
    let mut req = Request::new(b"x", 10, 0);
    assert!(run_consumer_step(&mut req, &mut buf, 5).is_none());
    assert_eq!(read_status(&buf), STATUS_IDLE);
    assert_eq!(read_payload_size(&buf), 0);
    assert_eq!(provider_respond(&mut buf, b"y"), None);
    write_u32(&mut buf, OFFSET_CAS_LOCK, 0);
    assert!(run_consumer_step(&mut req, &mut buf, 6).is_none());
    assert_eq!(read_status(&buf), STATUS_CONSUMER_REQ);
    assert_eq!(read_u32(&buf, OFFSET_CAS_LOCK), 0);
}

#[test]
fn silent_provider_times_out_waiting_for_response() {
    let mut buf = channel(8, 8);
    let mut req = Request::new(b"ping", 50, 0);
    assert!(run_consumer_step(&mut req, &mut buf, 0).is_none());
    assert!(run_consumer_step(&mut req, &mut buf, 50).is_none());
    match run_consumer_step(&mut req, &mut buf, 51).unwrap() {
        Err(e) => assert_eq!(e.message(), "timeout waiting for response"),
        Ok(_) => panic!("expected a timeout"),
    }
}

#[test]
fn provider_error_is_reported_with_its_code() {
    let mut buf = channel(8, 8);
    let mut req = Request::new(b"ping", 50, 0);
    assert!(run_consumer_step(&mut req, &mut buf, 0).is_none());
    write_u32(&mut buf, OFFSET_ERROR_CODE, 1234);
    write_status(&mut buf, STATUS_ERROR);
    match run_consumer_step(&mut req, &mut buf, 1).unwrap() {
        Err(e) => {
            assert!(matches!(e, RequestError::ProviderError(1234)));
            assert_eq!(e.message(), "provider error: code 1234");
        }
        Ok(_) => panic!("expected an error"),
    }
    assert_eq!(read_status(&buf), STATUS_IDLE);
}

#[test]
fn payload_is_cut_to_the_capacity() {
    let mut buf = channel(64, 4);
    let n = write_payload(&mut buf, b"abcdefgh", STATUS_CONSUMER_REQ);
    assert_eq!(n, Some(4));
    assert_eq!(read_payload_size(&buf), 4);
    assert_eq!(&buf[32..], b"abcd");
    let mut buf = channel(3, 8);
    assert_eq!(write_payload(&mut buf, b"abcdefgh", STATUS_CONSUMER_REQ), Some(3));
    assert_eq!(read_payload_size(&buf), 3);
    assert_eq!(&buf[32..], b"abc\0\0\0\0\0");
    let mut buf = channel(0, 8);
    assert_eq!(write_payload(&mut buf, b"hello", STATUS_CONSUMER_REQ), Some(0));
    assert_eq!(read_payload_size(&buf), 0);
}

#[test]
fn reads_stop_at_max_capacity_and_pad_past_the_buffer() {
    let mut buf = channel(2, 4);
    buf[32] = 9;
    buf[33] = 8;
    buf[34] = 7;
    write_payload_size(&mut buf, 5);
    assert_eq!(read_payload(&buf), vec![9, 8]);
    let mut buf = channel(64, 2);
    buf[32] = 9;
    buf[33] = 8;
    write_payload_size(&mut buf, 5);
    assert_eq!(read_payload(&buf), vec![9, 8, 0, 0, 0]);
    write_status(&mut buf, STATUS_CONSUMER_REQ);
    match provider_poll(&mut buf) {
        ProviderEvent::Request(r) => assert_eq!(r, vec![9, 8, 0, 0, 0]),
        _ => panic!("expected a request"),
    }
}

#[test]
fn provider_clears_an_error_and_ignores_idle() {
    let mut buf = channel(0, 0);
    assert!(matches!(provider_poll(&mut buf), ProviderEvent::Nothing));
    write_status(&mut buf, STATUS_ERROR);
    assert!(matches!(provider_poll(&mut buf), ProviderEvent::ErrorCleared));
    assert_eq!(read_status(&buf), STATUS_IDLE);
}

#[test]
fn writing_back_what_was_read_changes_nothing() {
    let mut buf: Vec<u8> = (0u8..40).collect();
    let before = buf.clone();
    let v = read_u32(&buf, 9);
    write_u32(&mut buf, 9, v);
    assert_eq!(buf, before);
}
