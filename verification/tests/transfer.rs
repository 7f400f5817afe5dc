use f11esync::broadcast::{
    chunk_slice, file_id_of, file_precheck, plan_broadcast_create_dir, plan_broadcast_delete,
    plan_file_send, ChunkSendState, FilePrecheck, FileSendPlan, SendEvent, SendStep,
    SimpleBroadcast, CHUNK_SIZE,
};
use f11esync::config::ServerConfig;
use f11esync::filter::FilterSet;
use f11esync::proto::ClientConfig;
use f11esync::wire::{
    chunk_ack_failure, chunk_ack_success, chunk_complete_payload, chunk_data_payload,
    chunk_start_payload, connection_rejected_payload, create_dir_payload, delete_payload,
    sync_control_payload, sync_error_payload,
};

fn cfg(enable: bool, max: u64) -> ServerConfig {
    ServerConfig {
        host: "127.0.0.1".to_string(),
        port: 10080,
        dir: "/srv/root".to_string(),
        server_side_path_regex: Vec::new(),
        enable_server_side_file_size_limit: enable,
        max_server_side_file_size: max,
    }
}

#[test]
fn small_file_goes_inline() {
    // Two bytes "hi" encode to "aGk=": one `update`, no chunk events.
    let bytes = vec![b'h', b'i'];
    match plan_file_send("a.txt", &bytes) {
        FileSendPlan::Inline(p) => {
            assert_eq!(p.action, "update");
            assert_eq!(p.path, "a.txt");
            assert_eq!(p.content, "aGk=");
            assert!(!p.isDir);
            assert_eq!(p.encoding, "base64");
        },
        FileSendPlan::Chunked { .. } => panic!("a two-byte file must go inline"),
    }
}

#[test]
fn megabyte_of_zeros_takes_six_chunks() {
    let bytes = vec![0u8; 1048576];
    match plan_file_send("big.bin", &bytes) {
        FileSendPlan::Chunked { b64, total_chunks } => {
            assert_eq!(b64.len(), 1398104);
            assert_eq!(total_chunks, 6);
            // The slices cover the text in order, 256 KiB each but the tail.
            let mut rebuilt = String::new();
            for i in 0..total_chunks {
                let piece = chunk_slice(&b64, i, total_chunks);
                if i < 5 {
                    assert_eq!(piece.len(), CHUNK_SIZE);
                } else {
                    assert_eq!(piece.len(), 1398104 - 5 * CHUNK_SIZE);
                }
                rebuilt.push_str(&piece);
            }
            assert_eq!(rebuilt, b64);
        },
        FileSendPlan::Inline(_) => panic!("a megabyte must be chunked"),
    }
}

#[test]
fn boundary_file_stays_inline() {
    // 196608 bytes encode to exactly 262144 characters: still inline.
    let bytes = vec![7u8; 196608];
    assert!(matches!(plan_file_send("edge.bin", &bytes), FileSendPlan::Inline(_)));
    let bytes = vec![7u8; 196609];
    assert!(matches!(plan_file_send("over.bin", &bytes), FileSendPlan::Chunked { .. }));
}

#[test]
fn send_machine_walks_chunks_in_order() {
    let mut st = ChunkSendState::begin(6);
    assert_eq!(st.next_chunk, 0);
    assert_eq!(st.chunk_attempt, 1);
    for expect in 1..6u32 {
        match st.step(SendEvent::AckOk) {
            SendStep::SendChunk { index, attempt } => {
                assert_eq!(index, expect);
                assert_eq!(attempt, 1);
            },
            _ => panic!("expected the next chunk"),
        }
    }
    assert_eq!(st.step(SendEvent::AckOk), SendStep::Finished);
}

#[test]
fn send_machine_retries_same_chunk_then_restarts_file() {
    let mut st = ChunkSendState::begin(6);
    st.step(SendEvent::AckOk);
    st.step(SendEvent::AckOk);
    st.step(SendEvent::AckOk);
    assert_eq!(st.next_chunk, 3);
    // A withheld ack: the same (fileId, chunkIndex 3) goes out again.
    assert_eq!(st.step(SendEvent::AckFailed), SendStep::SendChunk { index: 3, attempt: 2 });
    // A later ack success resumes the sequence.
    assert_eq!(st.step(SendEvent::AckOk), SendStep::SendChunk { index: 4, attempt: 1 });
    // Four failures on one chunk restart the whole file.
    assert_eq!(st.step(SendEvent::AckFailed), SendStep::SendChunk { index: 4, attempt: 2 });
    assert_eq!(st.step(SendEvent::AckFailed), SendStep::SendChunk { index: 4, attempt: 3 });
    assert_eq!(st.step(SendEvent::AckFailed), SendStep::SendChunk { index: 4, attempt: 4 });
    assert_eq!(st.step(SendEvent::AckFailed), SendStep::RestartFile { attempt: 2 });
    assert_eq!(st.next_chunk, 0);
}

#[test]
fn send_machine_gives_up_after_four_file_attempts() {
    let mut st = ChunkSendState::begin(2);
    for file_attempt in 2..=4u8 {
        for _ in 0..3 {
            assert!(matches!(st.step(SendEvent::AckFailed), SendStep::SendChunk { .. }));
        }
        assert_eq!(st.step(SendEvent::AckFailed), SendStep::RestartFile { attempt: file_attempt });
    }
    for _ in 0..3 {
        assert!(matches!(st.step(SendEvent::AckFailed), SendStep::SendChunk { .. }));
    }
    assert_eq!(st.step(SendEvent::AckFailed), SendStep::Failed);
}

#[test]
fn send_machine_aborts_on_disconnect() {
    let mut st = ChunkSendState::begin(3);
    st.step(SendEvent::AckOk);
    let before = st.clone();
    assert_eq!(st.step(SendEvent::SocketLost), SendStep::Aborted);
    assert_eq!(st, before);
}

#[test]
fn precheck_filters_then_sizes() {
    let filters = FilterSet::from_patterns(&vec!["\\.tmp$".to_string()]);
    let c = ClientConfig::default();
    match file_precheck(&filters, &c, &cfg(true, 1024), "a.tmp", 10) {
        FilePrecheck::Filtered(n) => {
            assert_eq!(n.warning.path, "update -> a.tmp");
        },
        _ => panic!("expected the filter to win"),
    }
    match file_precheck(&filters, &c, &cfg(true, 1024), "big.bin", 5000) {
        FilePrecheck::TooLarge(n) => {
            assert_eq!(n.warning.path, "big.bin");
            let msg = n.warning.message.unwrap();
            assert!(msg.contains("过大"));
            assert!(msg.contains("1.0KB"));
            assert_eq!(n.log_line, format!("文件过大，跳过 -> big.bin ({})", msg));
        },
        _ => panic!("expected the size cap to reject"),
    }
    assert!(matches!(
        file_precheck(&filters, &c, &cfg(true, 1024), "ok.bin", 1000),
        FilePrecheck::Read
    ));
}

#[test]
fn simple_broadcasts_respect_the_filter() {
    let filters = FilterSet::from_patterns(&vec!["^secret".to_string()]);
    assert!(matches!(
        plan_broadcast_create_dir(&filters, "secret/dir"),
        SimpleBroadcast::Filtered(_)
    ));
    assert!(matches!(plan_broadcast_create_dir(&filters, "open/dir"), SimpleBroadcast::Send));
    match plan_broadcast_delete(&filters, "secret/f") {
        SimpleBroadcast::Filtered(n) => assert_eq!(n.warning.path, "delete -> secret/f"),
        SimpleBroadcast::Send => panic!("expected the filter to win"),
    }
}

#[test]
fn payload_shapes() {
    let p = create_dir_payload("sub");
    assert_eq!((p.action.as_str(), p.path.as_str(), p.isDir), ("create_dir", "sub", true));
    assert!(p.content.is_none());

    let d = delete_payload("gone.txt", false);
    assert_eq!((d.action.as_str(), d.path.as_str(), d.isDir), ("delete", "gone.txt", false));

    let s = sync_control_payload("sync_start");
    assert_eq!((s.action.as_str(), s.path.as_str(), s.isDir), ("sync_start", "", false));

    let e = sync_error_payload("boom".to_string());
    assert_eq!(e.action, "sync_error");
    assert_eq!(e.content.as_deref(), Some("boom"));

    let cs = chunk_start_payload("big.bin", "17-2a", 6, 1048576);
    assert_eq!(cs.path, "big.bin");
    assert_eq!(cs.fileId, "17-2a");
    assert_eq!(cs.totalChunks, 6);
    assert_eq!(cs.totalSize, Some(1048576));
    assert_eq!(cs.isDir, Some(false));

    let cd = chunk_data_payload("17-2a", 3, "QUJD".to_string(), "big.bin");
    assert_eq!((cd.fileId.as_str(), cd.chunkIndex, cd.content.as_str()), ("17-2a", 3, "QUJD"));
    assert_eq!(cd.path.as_deref(), Some("big.bin"));

    let cc = chunk_complete_payload("17-2a".to_string(), "big.bin");
    assert_eq!(cc.fileId, "17-2a");
    assert_eq!(cc.path.as_deref(), Some("big.bin"));

    let ok = chunk_ack_success("f".to_string(), 0);
    assert_eq!(ok.success, Some(true));
    assert!(ok.error.is_none());
    let bad = chunk_ack_failure("f".to_string(), 1, "why".to_string());
    assert_eq!(bad.success, Some(false));
    assert_eq!(bad.error.as_deref(), Some("why"));

    let rejected = connection_rejected_payload();
    assert_eq!(rejected.message, "连接失败：已有其他客户端连接，不允许多个客户端同时连接");

    assert_eq!(file_id_of(1700000000123, "2a"), "1700000000123-2a");
}
