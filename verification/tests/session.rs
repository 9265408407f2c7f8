use bandit::metrics::throughput;
use bandit::session::{Progress, Receiver, Sender};

/// Receives from a peer that has `available` bytes to give and then
/// closes; each read returns all that was asked for while bytes are left.
fn receive(expected: u64, chunk: usize, available: u64) -> (u64, Progress, usize) {
    let mut receiver = Receiver::new(expected, chunk);
    let mut left = available;
    let mut reads = 0;
    loop {
        let max = receiver.next_read();
        assert!(max <= chunk);
        assert!(max as u64 <= expected - receiver.received);
        let n = left.min(max as u64) as usize;
        left -= n as u64;
        reads += 1;
        let progress = receiver.on_read(n);
        assert_eq!(progress, receiver.progress);
        assert!(receiver.received <= expected);
        if progress != Progress::Continue {
            return (receiver.received, progress, reads);
        }
    }
}

#[test]
fn conservation_for_every_chunk_size() {
    for chunk in [1usize, 1024, 65536] {
        let (total, progress, _) = receive(1_048_576, chunk, 1_048_576);
        assert_eq!(total, 1_048_576);
        assert_eq!(progress, Progress::Complete);
    }
}

#[test]
fn conservation_chunk_equal_to_length() {
    assert_eq!(receive(4096, 4096, 4096), (4096, Progress::Complete, 1));
}

#[test]
fn conservation_chunk_not_dividing_length() {
    assert_eq!(receive(10, 3, 10), (10, Progress::Complete, 4));
}

#[test]
fn early_termination_reports_what_arrived() {
    assert_eq!(receive(1000, 64, 300), (300, Progress::PeerClosed, 6));
    assert_eq!(receive(1000, 64, 0), (0, Progress::PeerClosed, 1));
    assert_eq!(receive(u64::MAX, 7, 20), (20, Progress::PeerClosed, 4));
}

#[test]
fn empty_payload_completes_on_first_read() {
    assert_eq!(receive(0, 16, 0), (0, Progress::Complete, 1));
}

#[test]
fn short_reads_are_not_an_end() {
    let mut receiver = Receiver::new(10, 8);
    assert_eq!(receiver.on_read(1), Progress::Continue);
    assert_eq!(receiver.on_read(2), Progress::Continue);
    assert_eq!(receiver.received, 3);
    assert_eq!(receiver.on_read(7), Progress::Complete);
    assert_eq!(receiver.received, 10);
    assert_eq!(receiver.expected, 10);
    assert_eq!(receiver.chunk_size, 8);
}

#[test]
fn receiver_stops_at_the_announced_length() {
    assert_eq!(receive(3, 2, 4), (3, Progress::Complete, 2));
    assert_eq!(receive(3, 2, u64::MAX), (3, Progress::Complete, 2));
    assert_eq!(receive(10, 64, 1000), (10, Progress::Complete, 1));
    assert_eq!(receive(0, 8, 5), (0, Progress::Complete, 1));
}

#[test]
fn read_limit_is_what_is_still_owed() {
    let mut receiver = Receiver::new(3, 2);
    assert_eq!(receiver.next_read(), 2);
    assert_eq!(receiver.on_read(2), Progress::Continue);
    assert_eq!(receiver.next_read(), 1);
    assert_eq!(receiver.on_read(1), Progress::Complete);
    assert_eq!(receiver.received, 3);
    assert_eq!(receiver.next_read(), 0);

    assert_eq!(Receiver::new(u64::MAX, usize::MAX).next_read(), usize::MAX);
    assert_eq!(Receiver::new(5, usize::MAX).next_read(), 5);
    assert_eq!(Receiver::new(0, 16).next_read(), 0);
    assert_eq!(Receiver::new(16, 0).next_read(), 0);
}

#[test]
fn receiver_starts_empty() {
    let receiver = Receiver::new(65536, 4096);
    assert_eq!(
        receiver,
        Receiver { expected: 65536, chunk_size: 4096, received: 0, progress: Progress::Continue }
    );
}

#[test]
fn sender_offers_chunks_up_to_the_end() {
    let mut sender = Sender::new(10, 4);
    assert_eq!(sender.next_chunk(), (0, 4));
    assert_eq!(sender.on_written(4), Progress::Continue);
    assert_eq!(sender.next_chunk(), (4, 8));
    assert_eq!(sender.on_written(4), Progress::Continue);
    assert_eq!(sender.next_chunk(), (8, 10));
    assert_eq!(sender.on_written(2), Progress::Complete);
    assert_eq!(sender.pos, 10);
}

#[test]
fn sender_continues_after_partial_write() {
    let mut sender = Sender::new(100, 40);
    assert_eq!(sender.next_chunk(), (0, 40));
    assert_eq!(sender.on_written(7), Progress::Continue);
    assert_eq!(sender.pos, 7);
    assert_eq!(sender.next_chunk(), (7, 47));
    assert_eq!(sender.on_written(40), Progress::Continue);
    assert_eq!(sender.next_chunk(), (47, 87));
    assert_eq!(sender.on_written(40), Progress::Continue);
    assert_eq!(sender.next_chunk(), (87, 100));
    assert_eq!(sender.on_written(13), Progress::Complete);
}

#[test]
fn sender_zero_write_means_peer_closed() {
    let mut sender = Sender::new(100, 40);
    assert_eq!(sender.on_written(40), Progress::Continue);
    assert_eq!(sender.on_written(0), Progress::PeerClosed);
    assert_eq!(sender.pos, 40);
    assert_eq!(sender.progress, Progress::PeerClosed);
}

#[test]
fn sender_chunk_larger_than_payload() {
    let mut sender = Sender::new(5, usize::MAX);
    assert_eq!(sender.next_chunk(), (0, 5));
    assert_eq!(sender.on_written(5), Progress::Complete);
}

#[test]
fn sender_of_nothing_completes_at_once() {
    let mut sender = Sender::new(0, 8);
    assert_eq!(sender.next_chunk(), (0, 0));
    assert_eq!(sender.on_written(0), Progress::Complete);
}

#[test]
fn sender_conservation_for_every_chunk_size() {
    for chunk in [1usize, 1024, 65536] {
        let mut sender = Sender::new(1_048_576, chunk);
        loop {
            let (start, end) = sender.next_chunk();
            if sender.on_written(end - start) != Progress::Continue {
                break;
            }
        }
        assert_eq!(sender.pos, 1_048_576);
        assert_eq!(sender.progress, Progress::Complete);
    }
}

#[test]
fn throughput_of_zero_elapsed_is_undefined() {
    assert_eq!(throughput(0, 0), None);
    assert_eq!(throughput(65536, 0), None);
    assert_eq!(throughput(u64::MAX, 0), None);
}

#[test]
fn throughput_exact_values() {
    assert_eq!(throughput(1_048_576, 500_000_000), Some(2_097_152));
    assert_eq!(throughput(65536, 1_000_000_000), Some(65536));
    assert_eq!(throughput(1, 3), Some(333_333_333));
    assert_eq!(throughput(0, 17), Some(0));
    assert_eq!(throughput(10, 3_000_000_000), Some(3));
    assert_eq!(throughput(u64::MAX, 1), Some(u64::MAX as u128 * 1_000_000_000));
    assert_eq!(throughput(1, u128::MAX), Some(0));
}
