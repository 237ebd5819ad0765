use streamcast::error::ErrorKind;
use streamcast::publish::{PublishStep, Publisher, DEFAULT_CHUNK_SIZE};

fn data(len: usize) -> Vec<u8> {
    let mut v = Vec::with_capacity(len);
    let mut i: usize = 0;
    while i < len {
        v.push((i * 7 + i / 251) as u8);
        i += 1;
    }
    v
}

/// Runs a delivery in which every step succeeds; returns the chunks sent and
/// the steps taken.
fn deliver(buffer: Vec<u8>, size: usize) -> (Vec<Vec<u8>>, Vec<PublishStep>) {
    let mut p = Publisher::new(buffer, size).unwrap();
    let mut sent = Vec::new();
    let mut steps = Vec::new();
    loop {
        let step = p.pending();
        steps.push(step);
        match step {
            PublishStep::Send(index) => {
                assert_eq!(index, sent.len());
                assert_eq!(p.sent(), sent.len());
                sent.push(p.chunk().to_vec());
            }
            PublishStep::Finished => break,
            PublishStep::GiveUp => panic!("a delivery without failure gave up"),
            _ => assert!(p.chunk().is_empty()),
        }
        assert!(p.completed(true).is_ok());
    }
    assert!(p.is_done());
    assert_eq!(p.sent(), sent.len());
    (sent, steps)
}

fn ceil_div(a: usize, b: usize) -> usize {
    if a == 0 {
        0
    } else {
        (a - 1) / b + 1
    }
}

#[test]
fn the_default_chunk_size() {
    assert_eq!(DEFAULT_CHUNK_SIZE, 4096);
}

#[test]
fn chunking_is_exact() {
    let lengths = [0usize, 1, 2, 4095, 4096, 4097, 8191, 8192, 8193, 10000, 40960];
    let sizes = [1usize, 2, 3, 100, 4095, 4096, 4097, 100000];
    for len in lengths.iter() {
        for size in sizes.iter() {
            let buffer = data(*len);
            let (sent, _) = deliver(buffer.clone(), *size);
            assert_eq!(sent.len(), ceil_div(*len, *size));
            for (i, chunk) in sent.iter().enumerate() {
                if i + 1 < sent.len() {
                    assert_eq!(chunk.len(), *size);
                } else {
                    assert!(chunk.len() >= 1 && chunk.len() <= *size);
                }
            }
            assert_eq!(sent.concat(), buffer);
        }
    }
}

#[test]
fn ten_thousand_bytes_make_three_chunks() {
    let buffer = data(10000);
    let (sent, _) = deliver(buffer.clone(), 4096);
    let sizes: Vec<usize> = sent.iter().map(|c| c.len()).collect();
    assert_eq!(sizes, vec![4096, 4096, 1808]);
    assert_eq!(sent[0], &buffer[0..4096]);
    assert_eq!(sent[1], &buffer[4096..8192]);
    assert_eq!(sent[2], &buffer[8192..]);
}

#[test]
fn a_buffer_of_exactly_one_chunk() {
    let (sent, steps) = deliver(data(4096), 4096);
    assert_eq!(sent.len(), 1);
    assert_eq!(sent[0].len(), 4096);
    assert_eq!(
        steps,
        vec![PublishStep::Connect, PublishStep::Send(0), PublishStep::Sync, PublishStep::Finished]
    );
}

#[test]
fn every_chunk_is_followed_by_a_sync() {
    let (_, steps) = deliver(data(9), 4);
    assert_eq!(
        steps,
        vec![
            PublishStep::Connect,
            PublishStep::Send(0),
            PublishStep::Sync,
            PublishStep::Send(1),
            PublishStep::Sync,
            PublishStep::Send(2),
            PublishStep::Sync,
            PublishStep::Finished
        ]
    );
}

#[test]
fn an_empty_buffer_sends_nothing() {
    let (sent, steps) = deliver(Vec::new(), 4096);
    assert!(sent.is_empty());
    assert_eq!(steps, vec![PublishStep::Connect, PublishStep::Finished]);
}

#[test]
fn a_chunk_size_of_zero_gives_the_buffer_back() {
    let buffer = data(10);
    assert_eq!(Publisher::new(buffer.clone(), 0).unwrap_err(), buffer);
    assert!(Publisher::new(Vec::new(), 0).is_err());
}

#[test]
fn a_failed_connection_ends_the_delivery() {
    let buffer = data(100);
    let mut p = Publisher::new(buffer.clone(), 10).unwrap();
    assert_eq!(p.pending(), PublishStep::Connect);
    let e = p.completed(false).unwrap_err();
    assert_eq!(e.kind, ErrorKind::Network);
    assert_eq!(e.cause, "connecting failed");
    assert_eq!(e.message(), "network: connecting failed");
    assert_eq!(p.pending(), PublishStep::GiveUp);
    assert!(p.chunk().is_empty());
    assert!(p.completed(true).is_ok());
    assert_eq!(p.pending(), PublishStep::GiveUp);
    assert!(!p.is_done());
    assert_eq!(p.sent(), 0);
    assert_eq!(p.into_buffer(), buffer);
}

#[test]
fn a_failed_send_keeps_the_buffer_for_another_try() {
    let buffer = data(25);
    let mut p = Publisher::new(buffer.clone(), 10).unwrap();
    p.completed(true).unwrap();
    assert_eq!(p.pending(), PublishStep::Send(0));
    p.completed(true).unwrap();
    assert_eq!(p.pending(), PublishStep::Sync);
    p.completed(true).unwrap();
    assert_eq!(p.pending(), PublishStep::Send(1));
    assert_eq!(p.chunk(), &buffer[10..20]);
    let e = p.completed(false).unwrap_err();
    assert_eq!(e.kind, ErrorKind::Network);
    assert_eq!(e.cause, "sending a chunk failed");
    assert_eq!(p.pending(), PublishStep::GiveUp);
    assert_eq!(p.sent(), 1);
    let again = p.into_buffer();
    assert_eq!(again, buffer);
    let (sent, _) = deliver(again, 10);
    assert_eq!(sent.concat(), buffer);
}

#[test]
fn a_failed_sync_ends_the_delivery() {
    let mut p = Publisher::new(data(25), 10).unwrap();
    p.completed(true).unwrap();
    p.completed(true).unwrap();
    assert_eq!(p.pending(), PublishStep::Sync);
    let e = p.completed(false).unwrap_err();
    assert_eq!(e.kind, ErrorKind::Network);
    assert_eq!(e.cause, "synchronising failed");
    assert_eq!(p.pending(), PublishStep::GiveUp);
}

#[test]
fn a_finished_delivery_stays_finished() {
    let mut p = Publisher::new(data(3), 4096).unwrap();
    p.completed(true).unwrap();
    assert_eq!(p.chunk(), &data(3)[..]);
    p.completed(true).unwrap();
    p.completed(true).unwrap();
    assert!(p.is_done());
    assert!(p.completed(false).is_ok());
    assert!(p.completed(true).is_ok());
    assert!(p.is_done());
    assert_eq!(p.pending(), PublishStep::Finished);
    assert_eq!(p.sent(), 1);
    assert!(p.chunk().is_empty());
}
