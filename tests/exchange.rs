use wasm_mp1::buffer::{ExchangeBuffer, RegionOverflow};
use wasm_mp1::exchange::{Exchange, MessageLog};

fn recording_exchange() -> Exchange<MessageLog> {
    let mut ex = Exchange::new();
    ex.set_msg_processor(MessageLog::new());
    ex
}

fn log_of(ex: &Exchange<MessageLog>) -> Vec<Vec<u8>> {
    ex.processor().unwrap().messages().clone()
}

#[test]
fn send_into_empty_buffer_allocates_exact_capacity() {
    let mut ex: Exchange<MessageLog> = Exchange::new();
    assert_eq!(ex.capacity(), 0);
    let len = ex.send_msg_out(&vec![0x01, 0x02, 0x03]);
    assert_eq!(len, 3);
    assert_eq!(ex.capacity(), 3);
    assert_eq!(&ex.region()[..len], &[0x01, 0x02, 0x03]);
}

#[test]
fn send_reuses_larger_region_and_keeps_tail() {
    let mut ex: Exchange<MessageLog> = Exchange::new();
    let first = ex.get_buffer(6);
    let len = ex.send_msg_out(&vec![9, 8]);
    assert_eq!(len, 2);
    assert_eq!(ex.capacity(), 6);
    assert_eq!(ex.get_buffer(0), first);
    assert_eq!(ex.region(), &[9, 8, 0, 0, 0, 0]);
}

#[test]
fn send_empty_message() {
    let mut ex: Exchange<MessageLog> = Exchange::new();
    let len = ex.send_msg_out(&Vec::new());
    assert_eq!(len, 0);
    assert_eq!(ex.capacity(), 0);
}

#[test]
fn send_grows_region_for_longer_message() {
    let mut ex: Exchange<MessageLog> = Exchange::new();
    ex.send_msg_out(&vec![1, 2]);
    let len = ex.send_msg_out(&vec![5, 6, 7, 8, 9]);
    assert_eq!(len, 5);
    assert_eq!(ex.capacity(), 5);
    assert_eq!(ex.region(), &[5, 6, 7, 8, 9]);
}

#[test]
fn second_smaller_request_keeps_region() {
    let mut b = ExchangeBuffer::new();
    let first = b.ensure_capacity(10);
    let second = b.ensure_capacity(5);
    assert_eq!(first, second);
    assert_eq!(b.capacity(), 10);
}

#[test]
fn larger_request_replaces_region() {
    let mut b = ExchangeBuffer::new();
    let first = b.ensure_capacity(4);
    assert_eq!(b.write_region(&[1, 2, 3, 4]), Ok(()));
    let second = b.ensure_capacity(8);
    assert!(second > first);
    assert_eq!(b.capacity(), 8);
    assert_eq!(b.region(), &[0u8; 8]);
}

#[test]
fn capacity_never_decreases() {
    let mut b = ExchangeBuffer::new();
    let mut last: usize = 0;
    for n in [3usize, 1, 7, 7, 2, 0, 12, 5] {
        b.ensure_capacity(n);
        assert!(b.capacity() >= last);
        assert!(b.capacity() >= n);
        last = b.capacity();
    }
    assert_eq!(last, 12);
}

#[test]
fn zero_request_allocates_nothing() {
    let mut b = ExchangeBuffer::new();
    assert_eq!(b.ensure_capacity(0), 0);
    assert!(!b.is_allocated());
    assert_eq!(b.region_number(), 0);
    b.ensure_capacity(1);
    assert!(b.is_allocated());
    assert_eq!(b.region_number(), 1);
}

#[test]
fn write_longer_than_region_fails() {
    let mut b = ExchangeBuffer::new();
    b.ensure_capacity(2);
    assert_eq!(b.write_region(&[1, 2, 3]), Err(RegionOverflow::TooLong));
    assert_eq!(b.region(), &[0, 0]);
}

#[test]
fn read_region_copies_prefix() {
    let mut b = ExchangeBuffer::new();
    b.ensure_capacity(5);
    b.write_region(&[4, 3, 2, 1, 0]).unwrap();
    assert_eq!(b.read_region(3), vec![4, 3, 2]);
    assert_eq!(b.read_region(0), Vec::<u8>::new());
}

#[test]
fn accept_zero_gives_one_empty_message() {
    let mut ex = recording_exchange();
    assert_eq!(ex.accept_msg(0), Ok(()));
    assert_eq!(log_of(&ex), vec![Vec::<u8>::new()]);
    assert_eq!(ex.capacity(), 0);
}

#[test]
fn accept_without_processor_drops_message() {
    let mut ex: Exchange<MessageLog> = Exchange::new();
    ex.get_buffer(3);
    ex.host_write(&[1, 2, 3]).unwrap();
    assert_eq!(ex.accept_msg(3), Ok(()));
    assert_eq!(ex.region(), &[1, 2, 3]);
}

#[test]
fn accept_echoes_host_bytes() {
    let mut ex = recording_exchange();
    ex.get_buffer(4);
    ex.host_write(&[0xAA, 0xBB, 0xCC, 0xDD]).unwrap();
    assert_eq!(ex.accept_msg(4), Ok(()));
    assert_eq!(log_of(&ex), vec![vec![0xAA, 0xBB, 0xCC, 0xDD]]);
}

#[test]
fn accepted_messages_recorded_in_order() {
    let mut ex = recording_exchange();
    let patterns: Vec<Vec<u8>> = vec![vec![1, 2, 3, 4, 5], vec![], vec![7], vec![8, 9, 10]];
    for p in &patterns {
        ex.get_buffer(p.len());
        ex.host_write(p).unwrap();
        assert_eq!(ex.accept_msg(p.len()), Ok(()));
    }
    assert_eq!(log_of(&ex), patterns);
    assert_eq!(ex.capacity(), 5);
}

#[test]
fn accept_beyond_region_is_refused() {
    let mut ex = recording_exchange();
    ex.get_buffer(2);
    assert_eq!(ex.accept_msg(3), Err(RegionOverflow::TooLong));
    assert!(log_of(&ex).is_empty());
}

#[test]
fn take_messages_drains_log() {
    let mut ex = recording_exchange();
    ex.get_buffer(2);
    ex.host_write(&[3, 4]).unwrap();
    ex.accept_msg(2).unwrap();
    ex.accept_msg(1).unwrap();
    assert_eq!(ex.take_messages(), vec![vec![3u8, 4], vec![3u8]]);
    assert!(log_of(&ex).is_empty());
    ex.accept_msg(0).unwrap();
    assert_eq!(ex.take_messages(), vec![Vec::<u8>::new()]);
}

#[test]
fn take_messages_without_log_is_empty() {
    let mut ex: Exchange<MessageLog> = Exchange::new();
    ex.get_buffer(1);
    ex.accept_msg(1).unwrap();
    assert!(ex.take_messages().is_empty());
    assert!(ex.processor().is_none());
}

#[test]
fn fresh_context_has_no_processor() {
    let ex: Exchange<MessageLog> = Exchange::new();
    assert!(ex.processor().is_none());
}

#[test]
fn message_log_keeps_accepted_messages() {
    let mut ex: Exchange<MessageLog> = Exchange::new();
    ex.set_msg_processor(MessageLog::new());
    ex.get_buffer(4);
    ex.host_write(&[0xAA, 0xBB, 0xCC, 0xDD]).unwrap();
    assert_eq!(ex.accept_msg(4), Ok(()));
    assert_eq!(ex.accept_msg(2), Ok(()));
    assert_eq!(ex.accept_msg(0), Ok(()));
    let expected: Vec<Vec<u8>> = vec![vec![0xAA, 0xBB, 0xCC, 0xDD], vec![0xAA, 0xBB], vec![]];
    assert_eq!(ex.processor().unwrap().messages(), &expected);
}

#[test]
fn registering_fresh_log_replaces_earlier_log() {
    let mut ex: Exchange<MessageLog> = Exchange::new();
    ex.set_msg_processor(MessageLog::new());
    ex.get_buffer(1);
    ex.host_write(&[1]).unwrap();
    ex.accept_msg(1).unwrap();
    ex.set_msg_processor(MessageLog::new());
    assert!(ex.processor().unwrap().messages().is_empty());
    ex.host_write(&[2]).unwrap();
    ex.accept_msg(1).unwrap();
    assert_eq!(ex.processor().unwrap().messages(), &vec![vec![2u8]]);
}

#[test]
fn send_keeps_processor_log() {
    let mut ex: Exchange<MessageLog> = Exchange::new();
    ex.set_msg_processor(MessageLog::new());
    ex.get_buffer(1);
    ex.host_write(&[5]).unwrap();
    ex.accept_msg(1).unwrap();
    ex.send_msg_out(&vec![6, 7]);
    assert_eq!(ex.processor().unwrap().messages(), &vec![vec![5u8]]);
    assert_eq!(ex.region(), &[6, 7]);
}
