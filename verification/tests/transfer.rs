use stark_link_core::config::Config;
use stark_link_core::error::StarkLinkError;
use stark_link_core::protocol::Payload;
use stark_link_core::transfer::{
    build_chunk, chunk_at, sha256_hex, verify_chunk, ChunkGate, StreamAction, StreamEvent,
    TransferDirection, TransferEvent, TransferManager, TransferState,
};

fn config() -> Config {
    Config::defaults_with(1, Some("host".to_string()), Some("/home/u".to_string()))
}

#[test]
fn sha256_deterministic() {
    let a = sha256_hex(b"hello");
    let b = sha256_hex(b"hello");
    assert_eq!(a, b);
    assert_ne!(a, sha256_hex(b"world"));
}

#[test]
fn compress_decompress_round_trip() {
    let data = b"the quick brown fox jumps over the lazy dog".repeat(100);
    let compressed = lz4_flex::compress_prepend_size(&data);
    let decompressed = lz4_flex::decompress_size_prepended(&compressed).unwrap();
    assert_eq!(data.as_slice(), decompressed.as_slice());
}

#[test]
fn sha256_hex_known_value() {
    assert_eq!(
        sha256_hex(b"hello"),
        "2cf24dba5fb0a30e26e83b2ac5b9e29e1b161e5c1fa7425e73043362938b9824"
    );
}

#[test]
fn compressed_chunk_is_size_prefixed_block() {
    let msg = build_chunk(1, 2, 0, b"abcdef", true);
    match msg.payload {
        Payload::FileTransferChunk { data, .. } => {
            assert_eq!(&data[..4], &[6, 0, 0, 0]);
            assert_eq!(lz4_flex::decompress_size_prepended(&data).unwrap(), b"abcdef".to_vec());
        }
        _ => panic!("wrong payload"),
    }
}

#[test]
fn chunk_round_trip() {
    let chunk = b"0123456789".repeat(20);
    for compression in [true, false] {
        let msg = build_chunk(5, 9, 3, &chunk, compression);
        assert_eq!(msg.sender, 5);
        match msg.payload {
            Payload::FileTransferChunk { transfer_id, chunk_index, data, checksum, compressed } => {
                assert_eq!(transfer_id, 9);
                assert_eq!(chunk_index, 3);
                assert_eq!(compressed, compression);
                assert_eq!(checksum, sha256_hex(&chunk));
                assert_eq!(verify_chunk(data, checksum, compressed).unwrap(), chunk);
            }
            _ => panic!("wrong payload"),
        }
    }
}

#[test]
fn checksum_mismatch_reported() {
    let err = verify_chunk(b"data".to_vec(), "00".to_string(), false).unwrap_err();
    assert_eq!(
        err,
        StarkLinkError::ChecksumMismatch { expected: "00".to_string(), actual: sha256_hex(b"data") }
    );
    match verify_chunk(vec![1, 2], "x".to_string(), true).unwrap_err() {
        StarkLinkError::Transfer(m) => assert!(m.starts_with("decompression failed: ")),
        other => panic!("unexpected {other:?}"),
    }
}

#[test]
fn chunks_cover_the_file() {
    let data: Vec<u8> = (0..25u8).collect();
    assert_eq!(chunk_at(&data, 10, 0), &data[0..10]);
    assert_eq!(chunk_at(&data, 10, 1), &data[10..20]);
    assert_eq!(chunk_at(&data, 10, 2), &data[20..25]);
}

#[test]
fn outgoing_transfer_lifecycle() {
    let mut cfg = config();
    cfg.chunk_size = 4;
    let mut mgr = TransferManager::new(cfg);
    let data = b"0123456789".to_vec();
    let (id, start, ev) = mgr.start_outgoing(77, Some("notes.txt".to_string()), &data).unwrap();
    assert_eq!(start.sender, 1);
    assert_eq!(mgr.get(id).unwrap().peer_id, 77);
    match start.payload {
        Payload::FileTransferStart { transfer_id, file_name, file_size, total_chunks, file_checksum } => {
            assert_eq!(transfer_id, id);
            assert_eq!(file_name, "notes.txt");
            assert_eq!(file_size, 10);
            assert_eq!(total_chunks, 3);
            assert_eq!(file_checksum, sha256_hex(&data));
        }
        _ => panic!("wrong payload"),
    }
    assert!(matches!(ev, TransferEvent::Started(ref i) if i.id == id));
    assert_eq!(mgr.active_count(), 1);
    let info = mgr.get(id).unwrap();
    assert_eq!(info.state, TransferState::InProgress);
    assert_eq!(info.direction, TransferDirection::Outgoing);

    assert_eq!(mgr.chunk_gate(id), ChunkGate::Proceed);
    let p = mgr.record_sent(id, 0, 4).unwrap();
    assert!(matches!(p, TransferEvent::Progress(ref i) if i.chunks_done == 1 && i.bytes_transferred == 4));
    assert_eq!(mgr.get(id).unwrap().progress_ratio(), (4, 10));
    let mut over = mgr.get(id).unwrap();
    over.bytes_transferred = 14;
    assert_eq!(over.progress_ratio(), (10, 10));

    mgr.pause(id).unwrap();
    assert_eq!(mgr.chunk_gate(id), ChunkGate::Wait);
    assert_eq!(mgr.active_count(), 0);
    mgr.resume(id).unwrap();
    assert_eq!(mgr.get(id).unwrap().state, TransferState::InProgress);

    let (done, ev) = mgr.finish_outgoing(id);
    assert_eq!(done.sender, 1);
    assert!(matches!(done.payload, Payload::FileTransferComplete { transfer_id } if transfer_id == id));
    assert!(matches!(ev, TransferEvent::Completed { transfer_id } if transfer_id == id));
    assert_eq!(mgr.get(id).unwrap().state, TransferState::Completed);
}

#[test]
fn unnamed_file_and_limits() {
    let mut cfg = config();
    cfg.max_concurrent_transfers = 1;
    cfg.max_file_size = 5;
    let mut mgr = TransferManager::new(cfg);
    let err = mgr.start_outgoing(1, None, b"0123456789").unwrap_err();
    assert_eq!(err, StarkLinkError::Transfer("file too large: 10 bytes (max 5)".to_string()));
    let (id, _, _) = mgr.start_outgoing(1, None, b"abc").unwrap();
    assert_eq!(mgr.get(id).unwrap().file_name, "unnamed");
    assert_eq!(mgr.check_capacity(), Err(StarkLinkError::MaxTransfersReached(1)));
    let err = mgr.start_outgoing(1, None, b"abc").unwrap_err();
    assert_eq!(err, StarkLinkError::MaxTransfersReached(1));
    assert_eq!(err.message(), "max concurrent transfers reached (limit: 1)");
}

#[test]
fn incoming_transfer_and_control_errors() {
    let mut mgr = TransferManager::new(config());
    let chunk = b"incoming bytes".to_vec();
    let sum = sha256_hex(&chunk);
    let ev = mgr
        .handle_transfer_start(3, 42, "a.bin".to_string(), 14, 1, sum.clone())
        .unwrap();
    assert!(matches!(ev, TransferEvent::Started(ref i) if i.direction == TransferDirection::Incoming));
    let (content, progress) = mgr.handle_chunk(42, 0, lz4_flex::compress_prepend_size(&chunk), sum, true).unwrap();
    assert_eq!(content, chunk);
    assert!(matches!(progress, Some(TransferEvent::Progress(ref i)) if i.bytes_transferred == 14));
    assert!(matches!(mgr.handle_complete(42).unwrap(), Some(TransferEvent::Completed { transfer_id: 42 })));
    assert!(mgr.handle_complete(7).unwrap().is_none());

    assert_eq!(
        mgr.pause(42).unwrap_err(),
        StarkLinkError::Transfer("transfer not in progress".to_string())
    );
    assert_eq!(
        mgr.resume(42).unwrap_err(),
        StarkLinkError::Transfer("transfer not paused".to_string())
    );
    assert_eq!(mgr.pause(9).unwrap_err(), StarkLinkError::Transfer("transfer not found".to_string()));
    assert_eq!(
        mgr.cancel(9, "x".to_string()).unwrap_err(),
        StarkLinkError::Transfer("transfer not found".to_string())
    );
    assert!(matches!(mgr.cancel(42, "user".to_string()).unwrap(), TransferEvent::Cancelled { transfer_id: 42 }));
    assert_eq!(mgr.chunk_gate(42), ChunkGate::Stop);
    assert_eq!(mgr.list().len(), 1);
    assert_eq!(mgr.download_path("a.bin"), "/home/u/Downloads/StarkLink/a.bin");
    assert_eq!(mgr.download_path("/etc/x"), "/etc/x");
}

#[test]
fn failed_transfer_reported() {
    let mut mgr = TransferManager::new(config());
    let (id, _, _) = mgr.start_outgoing(1, None, b"abc").unwrap();
    match mgr.record_failed(id) {
        TransferEvent::Failed { transfer_id, error } => {
            assert_eq!(transfer_id, id);
            assert_eq!(error, "send channel closed");
        }
        _ => panic!("wrong event"),
    }
    assert_eq!(mgr.get(id).unwrap().state, TransferState::Failed);
}

#[test]
fn outgoing_stream_sends_every_chunk_then_finishes() {
    let mut cfg = config();
    cfg.chunk_size = 4;
    cfg.compression_enabled = false;
    let mut mgr = TransferManager::new(cfg);
    let data = b"0123456789".to_vec();
    let (id, _, _) = mgr.start_outgoing(8, Some("f".to_string()), &data).unwrap();
    let mut stream = mgr.open_stream(8, id);
    assert_eq!(stream.next_index, 0);
    assert_eq!(stream.chunk_size, 4);
    let mut received = Vec::new();
    let mut event = StreamEvent::Ready;
    let mut finished = false;
    for _ in 0..20 {
        match mgr.stream_step(&mut stream, &data, event) {
            StreamAction::SendChunk(msg) => {
                assert_eq!(msg.sender, 1);
                match msg.payload {
                    Payload::FileTransferChunk { transfer_id, chunk_index, data, checksum, compressed } => {
                        assert_eq!(transfer_id, id);
                        assert_eq!(chunk_index as usize, stream.next_index);
                        received.extend(verify_chunk(data, checksum, compressed).unwrap());
                    }
                    _ => panic!("wrong payload"),
                }
                event = StreamEvent::Delivered;
            }
            StreamAction::Progressed(ev) => {
                assert!(matches!(ev, Some(TransferEvent::Progress(ref i)) if i.chunks_done as usize == stream.next_index));
                event = StreamEvent::Ready;
            }
            StreamAction::Finish(msg, ev) => {
                assert_eq!(msg.sender, 1);
                assert!(matches!(msg.payload, Payload::FileTransferComplete { transfer_id } if transfer_id == id));
                assert!(matches!(ev, TransferEvent::Completed { transfer_id } if transfer_id == id));
                finished = true;
                break;
            }
            other => panic!("unexpected {other:?}"),
        }
    }
    assert!(finished);
    assert_eq!(received, data);
    let info = mgr.get(id).unwrap();
    assert_eq!(info.state, TransferState::Completed);
    assert_eq!(info.chunks_done, 3);
    assert_eq!(info.bytes_transferred, 10);
}

#[test]
fn outgoing_stream_waits_stops_and_fails() {
    let mut mgr = TransferManager::new(config());
    let data = b"abc".to_vec();
    let (id, _, _) = mgr.start_outgoing(2, None, &data).unwrap();
    let mut stream = mgr.open_stream(2, id);
    mgr.pause(id).unwrap();
    assert!(matches!(mgr.stream_step(&mut stream, &data, StreamEvent::Ready), StreamAction::Wait));
    mgr.resume(id).unwrap();
    assert!(matches!(mgr.stream_step(&mut stream, &data, StreamEvent::Ready), StreamAction::SendChunk(_)));
    match mgr.stream_step(&mut stream, &data, StreamEvent::DeliveryFailed) {
        StreamAction::Stop(Some(TransferEvent::Failed { transfer_id, error })) => {
            assert_eq!(transfer_id, id);
            assert_eq!(error, "send channel closed");
        }
        other => panic!("unexpected {other:?}"),
    }
    assert_eq!(mgr.get(id).unwrap().state, TransferState::Failed);

    let (id2, _, _) = mgr.start_outgoing(2, None, &data).unwrap();
    let mut stream2 = mgr.open_stream(2, id2);
    mgr.cancel(id2, "user".to_string()).unwrap();
    assert!(matches!(mgr.stream_step(&mut stream2, &data, StreamEvent::Ready), StreamAction::Stop(None)));
    // a delivery with nothing outstanding changes nothing
    let mut done = mgr.open_stream(2, id2);
    done.next_index = 1;
    assert!(matches!(mgr.stream_step(&mut done, &data, StreamEvent::Delivered), StreamAction::Progressed(None)));
    assert_eq!(done.next_index, 1);
}

#[test]
fn empty_file_finishes_at_once() {
    let mut mgr = TransferManager::new(config());
    let (id, start, _) = mgr.start_outgoing(2, Some("empty".to_string()), b"").unwrap();
    assert!(matches!(start.payload, Payload::FileTransferStart { total_chunks: 0, file_size: 0, .. }));
    let mut stream = mgr.open_stream(2, id);
    assert!(matches!(mgr.stream_step(&mut stream, b"", StreamEvent::Ready), StreamAction::Finish(..)));
    assert_eq!(mgr.get(id).unwrap().progress_ratio(), (1, 1));
}

#[test]
fn zero_chunk_size_still_refuses_oversized_file() {
    let mut cfg = config();
    cfg.chunk_size = 0;
    cfg.max_file_size = 2;
    let mut mgr = TransferManager::new(cfg);
    let err = mgr.start_outgoing(1, None, b"abc").unwrap_err();
    assert_eq!(err, StarkLinkError::Transfer("file too large: 3 bytes (max 2)".to_string()));
}
