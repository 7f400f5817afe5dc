use f11esync::config::ServerConfig;
use f11esync::filter::FilterSet;
use f11esync::proto::{ChunkAck, ChunkData, ChunkStart, ClientConfig, CreateDir, UpdateFile};
use f11esync::pump::{route_fs_event, FsEvent, FsEventKind, PumpRoute};
use f11esync::session::{ack_key, SessionState};
use f11esync::upload::{
    finish_chunk_data, handle_chunk_ack, handle_chunk_complete, handle_chunk_start, join_path,
    plan_chunk_data, plan_create_dir, plan_update, ChunkDataStep, CreateDirAction, UpdateAction,
};
use f11esync::wire::connection_rejected_payload;

type TestSession = SessionState<u32, u32>;

fn cfg(enable: bool, max: u64) -> ServerConfig {
    ServerConfig {
        host: "127.0.0.1".to_string(),
        port: 10080,
        dir: "/srv/root".to_string(),
        server_side_path_regex: Vec::new(),
        enable_server_side_file_size_limit: enable,
        max_server_side_file_size: max,
    }
}

fn fresh() -> TestSession {
    SessionState::new(FilterSet::empty())
}

#[test]
fn second_client_is_rejected() {
    let mut s = fresh();
    assert!(s.set_socket_if_empty(1));
    assert!(!s.set_socket_if_empty(2));
    assert_eq!(s.socket, Some(1));
    assert_eq!(
        connection_rejected_payload().message,
        "连接失败：已有其他客户端连接，不允许多个客户端同时连接"
    );
    // The first client is unaffected until it disconnects.
    s.disconnect_cleanup();
    assert_eq!(s.socket, None);
    assert!(s.set_socket_if_empty(2));
}

#[test]
fn configure_merges_and_rebuilds_filters() {
    let server = FilterSet::from_patterns(&vec!["\\.log$".to_string()]);
    let mut s: TestSession = SessionState::new(server);
    s.apply_client_config(ClientConfig {
        enableFileSizeLimit: None,
        maxFileSize: None,
        pathRegex: Some(vec!["\\.bak$".to_string()]),
    });
    assert!(s.should_filter_rel("x.log"));
    assert!(s.should_filter_rel("x.bak"));
    assert!(!s.should_filter_rel("x.txt"));
    // Disconnect reverts to the server-only list.
    s.reset_connection_state();
    assert!(s.should_filter_rel("x.log"));
    assert!(!s.should_filter_rel("x.bak"));
}

#[test]
fn upload_writes_and_marks_echo() {
    let c = cfg(false, 0);
    let mut s = fresh();
    let action = plan_update(
        &c,
        &s.client_config,
        &UpdateFile {
            path: "x.txt".to_string(),
            content: "aGk=".to_string(),
            encoding: Some("base64".to_string()),
        },
    );
    match action {
        UpdateAction::Write { abs, rel, bytes } => {
            assert_eq!(abs, "/srv/root/x.txt");
            assert_eq!(rel, "x.txt");
            assert_eq!(bytes, b"hi".to_vec());
            // After the write lands, the path is marked client-written...
            s.client_written.mark(&rel);
        },
        _ => panic!("expected a write"),
    }
    // ...and the watcher's observation of that write is suppressed.
    s.set_socket_if_empty(1);
    let ev = FsEvent { kind: FsEventKind::ChangeFile, abs_path: "/srv/root/x.txt".to_string() };
    assert!(matches!(route_fs_event(&s, "/srv/root", &ev), PumpRoute::Drop));
    // Other paths still flow.
    let other = FsEvent { kind: FsEventKind::ChangeFile, abs_path: "/srv/root/y.txt".to_string() };
    match route_fs_event(&s, "/srv/root", &other) {
        PumpRoute::StatThenSend { rel } => assert_eq!(rel, "y.txt"),
        _ => panic!("expected a stat-then-send"),
    }
}

#[test]
fn echo_mark_expires_only_with_its_own_generation() {
    let mut s = fresh();
    s.set_socket_if_empty(1);
    let ev = FsEvent { kind: FsEventKind::ChangeFile, abs_path: "/srv/root/x.txt".to_string() };
    let g1 = s.client_written.mark("x.txt");
    // A re-mark within the window extends it: the older timer must not
    // delete the newer entry.
    let g2 = s.client_written.mark("x.txt");
    assert_ne!(g1, g2);
    s.client_written.expire("x.txt", g1);
    assert!(matches!(route_fs_event(&s, "/srv/root", &ev), PumpRoute::Drop));
    // The newest mark's timer clears it.
    s.client_written.expire("x.txt", g2);
    assert!(matches!(route_fs_event(&s, "/srv/root", &ev), PumpRoute::StatThenSend { .. }));
}

#[test]
fn pump_routes_by_kind_and_guards() {
    let mut s = fresh();
    let ev = FsEvent { kind: FsEventKind::AddFile, abs_path: "/srv/root/n.txt".to_string() };
    // No client attached: everything is dropped.
    assert!(matches!(route_fs_event(&s, "/srv/root", &ev), PumpRoute::Drop));
    s.set_socket_if_empty(9);
    assert!(matches!(route_fs_event(&s, "/srv/root", &ev), PumpRoute::StatThenSend { .. }));
    // Outside the root, ignored, or equal to the root: dropped.
    for abs in ["/elsewhere/n.txt", "/srv/root/.DS_Store", "/srv/root"] {
        let ev = FsEvent { kind: FsEventKind::AddFile, abs_path: abs.to_string() };
        assert!(matches!(route_fs_event(&s, "/srv/root", &ev), PumpRoute::Drop));
    }
    let dir_ev = FsEvent { kind: FsEventKind::AddDir, abs_path: "/srv/root/sub".to_string() };
    assert!(matches!(route_fs_event(&s, "/srv/root", &dir_ev), PumpRoute::DirTree { .. }));
    let rm = FsEvent { kind: FsEventKind::RemoveFile, abs_path: "/srv/root/g.txt".to_string() };
    match route_fs_event(&s, "/srv/root", &rm) {
        PumpRoute::Delete { rel, is_dir } => {
            assert_eq!(rel, "g.txt");
            assert!(!is_dir);
        },
        _ => panic!("expected a delete"),
    }
    let rmdir = FsEvent { kind: FsEventKind::RemoveDir, abs_path: "/srv/root/sub".to_string() };
    assert!(matches!(route_fs_event(&s, "/srv/root", &rmdir), PumpRoute::Delete { is_dir: true, .. }));
}

#[test]
fn upload_rejections() {
    let c = cfg(true, 1024);
    let s = fresh();
    let mk = |path: &str, content: &str, enc: Option<&str>| UpdateFile {
        path: path.to_string(),
        content: content.to_string(),
        encoding: enc.map(|e| e.to_string()),
    };
    assert!(matches!(
        plan_update(&c, &s.client_config, &mk("x.txt", "aGk=", None)),
        UpdateAction::BadEncoding
    ));
    assert!(matches!(
        plan_update(&c, &s.client_config, &mk("x.txt", "aGk=", Some("utf8"))),
        UpdateAction::BadEncoding
    ));
    assert!(matches!(
        plan_update(&c, &s.client_config, &mk("sub/.DS_Store", "aGk=", Some("base64"))),
        UpdateAction::Ignored
    ));
    assert!(matches!(
        plan_update(&c, &s.client_config, &mk("x.txt", "!!not-base64!!", Some("base64"))),
        UpdateAction::DecodeFailed
    ));
    let big = base64_of(&vec![0u8; 5000]);
    match plan_update(&c, &s.client_config, &mk("big.bin", &big, Some("base64"))) {
        UpdateAction::SizeRejected(n) => {
            assert_eq!(n.warning.path, "big.bin");
            assert!(n.warning.message.unwrap().contains("1.0KB"));
        },
        _ => panic!("expected a size rejection"),
    }
}

/// Encode through the library itself: a small inline plan carries exactly
/// the base64 text of its bytes.
fn base64_of(bytes: &Vec<u8>) -> String {
    match f11esync::broadcast::plan_file_send("t", bytes) {
        f11esync::broadcast::FileSendPlan::Inline(p) => p.content,
        f11esync::broadcast::FileSendPlan::Chunked { b64, .. } => b64,
    }
}

#[test]
fn create_dir_ignores_and_joins() {
    let c = cfg(false, 0);
    assert!(matches!(
        plan_create_dir(&c, &CreateDir { path: ".DS_Store".to_string() }),
        CreateDirAction::Ignored
    ));
    match plan_create_dir(&c, &CreateDir { path: "a\\b".to_string() }) {
        CreateDirAction::Create { abs, rel } => {
            assert_eq!(rel, "a/b");
            assert_eq!(abs, "/srv/root/a/b");
        },
        _ => panic!("expected a create"),
    }
    assert_eq!(join_path("/srv/root/", "x"), "/srv/root/x");
    assert_eq!(join_path("/srv/root", "/abs/path"), "/abs/path");
}

#[test]
fn chunk_upload_size_cap_rejects_every_chunk_but_warns_once() {
    let c = cfg(true, 1024);
    let mut s = fresh();
    handle_chunk_start(
        &mut s,
        &c,
        &ChunkStart {
            path: "big.bin".to_string(),
            fileId: "f1".to_string(),
            totalChunks: 2,
            totalSize: Some(5000),
            isDir: None,
        },
    );
    let chunk = |i: u32| ChunkData {
        fileId: "f1".to_string(),
        chunkIndex: i,
        content: "QUJD".to_string(),
        path: None,
    };
    match plan_chunk_data(&s, &chunk(0)) {
        ChunkDataStep::NackRejected { ack, warning } => {
            assert_eq!(ack.success, Some(false));
            let err = ack.error.unwrap();
            assert!(err.contains("过大"));
            assert!(err.contains("1.0KB"));
            let w = warning.expect("the first chunk carries the warning");
            assert_eq!(w.path, "big.bin");
            assert_eq!(w.message.as_deref(), Some(err.as_str()));
        },
        _ => panic!("expected a rejection"),
    }
    // Later chunks nack with the same reason, without another warning,
    // and nothing is ever handed over for writing.
    match plan_chunk_data(&s, &chunk(1)) {
        ChunkDataStep::NackRejected { ack, warning } => {
            assert!(ack.error.unwrap().contains("过大"));
            assert!(warning.is_none());
        },
        _ => panic!("expected a rejection"),
    }
}

#[test]
fn chunk_upload_happy_path() {
    let c = cfg(false, 0);
    let mut s = fresh();
    handle_chunk_start(
        &mut s,
        &c,
        &ChunkStart {
            path: "f.bin".to_string(),
            fileId: "f2".to_string(),
            totalChunks: 2,
            totalSize: None,
            isDir: None,
        },
    );
    let data0 = ChunkData {
        fileId: "f2".to_string(),
        chunkIndex: 0,
        content: "aGk=".to_string(),
        path: None,
    };
    match plan_chunk_data(&s, &data0) {
        ChunkDataStep::Write { abs, rel, bytes, truncate } => {
            assert_eq!(abs, "/srv/root/f.bin");
            assert_eq!(rel, "f.bin");
            assert_eq!(bytes, b"hi".to_vec());
            assert!(truncate);
        },
        _ => panic!("expected a write"),
    }
    let done = finish_chunk_data(&mut s, "f2", 0, "f.bin", None);
    assert_eq!(done.ack.success, Some(true));
    assert_eq!(done.progress.as_deref(), Some("接收分片: 1/2 (50%)"));
    // The second chunk appends.
    let data1 = ChunkData { chunkIndex: 1, ..data0 };
    match plan_chunk_data(&s, &data1) {
        ChunkDataStep::Write { truncate, .. } => assert!(!truncate),
        _ => panic!("expected a write"),
    }
    let done = finish_chunk_data(&mut s, "f2", 1, "f.bin", None);
    assert_eq!(done.progress.as_deref(), Some("接收分片: 2/2 (100%)"));
    // Completion removes the state and reports what was counted.
    let (st, _gen) = handle_chunk_complete(&mut s, "f2").expect("state should exist");
    assert_eq!(st.received_chunks, 2);
    assert!(handle_chunk_complete(&mut s, "f2").is_none());
}

#[test]
fn chunk_data_without_state_or_content_nacks() {
    let mut s = fresh();
    let data = ChunkData {
        fileId: "nope".to_string(),
        chunkIndex: 0,
        content: "aGk=".to_string(),
        path: None,
    };
    match plan_chunk_data(&s, &data) {
        ChunkDataStep::NackNoState { ack } => {
            assert_eq!(ack.error.as_deref(), Some("未找到接收状态"));
        },
        _ => panic!("expected a missing-state nack"),
    }
    handle_chunk_start(
        &mut s,
        &cfg(false, 0),
        &ChunkStart {
            path: "f.bin".to_string(),
            fileId: "f3".to_string(),
            totalChunks: 1,
            totalSize: None,
            isDir: None,
        },
    );
    let bad = ChunkData {
        fileId: "f3".to_string(),
        chunkIndex: 0,
        content: "%%%".to_string(),
        path: None,
    };
    match plan_chunk_data(&s, &bad) {
        ChunkDataStep::NackBadContent { ack } => {
            assert_eq!(ack.error.as_deref(), Some("Base64 解码失败"));
        },
        _ => panic!("expected a decode nack"),
    }
    // A failed disk write nacks with the error text and counts nothing.
    let done = finish_chunk_data(&mut s, "f3", 0, "f.bin", Some("disk full".to_string()));
    assert_eq!(done.ack.success, Some(false));
    assert_eq!(done.ack.error.as_deref(), Some("disk full"));
    assert!(done.progress.is_none());
}

#[test]
fn ack_waiters_resolve_once() {
    let mut s = fresh();
    let key = ack_key("17-2a", 3);
    assert_eq!(key, "17-2a-3");
    s.insert_ack_waiter(key.clone(), 99);
    let ack = ChunkAck { fileId: "17-2a".to_string(), chunkIndex: 3, success: None, error: None };
    // An absent `success` counts as success, and the waiter comes back.
    assert_eq!(handle_chunk_ack(&mut s, &ack), Some((99, true)));
    // A second delivery with the same key is a no-op.
    assert_eq!(handle_chunk_ack(&mut s, &ack), None);
    // An explicit failure is handed through.
    s.insert_ack_waiter(ack_key("17-2a", 4), 7);
    let nack = ChunkAck {
        fileId: "17-2a".to_string(),
        chunkIndex: 4,
        success: Some(false),
        error: Some("late".to_string()),
    };
    assert_eq!(handle_chunk_ack(&mut s, &nack), Some((7, false)));
}

#[test]
fn disconnect_wipes_all_client_state() {
    let mut s = fresh();
    s.set_socket_if_empty(5);
    s.client_written.mark("x.txt");
    s.insert_ack_waiter(ack_key("f", 0), 1);
    handle_chunk_start(
        &mut s,
        &cfg(false, 0),
        &ChunkStart {
            path: "p".to_string(),
            fileId: "f".to_string(),
            totalChunks: 1,
            totalSize: None,
            isDir: None,
        },
    );
    s.disconnect_cleanup();
    assert_eq!(s.socket, None);
    assert!(!s.client_written.contains("x.txt"));
    let ack = ChunkAck { fileId: "f".to_string(), chunkIndex: 0, success: None, error: None };
    assert_eq!(handle_chunk_ack(&mut s, &ack), None);
    let data =
        ChunkData { fileId: "f".to_string(), chunkIndex: 0, content: "aGk=".to_string(), path: None };
    assert!(matches!(plan_chunk_data(&s, &data), ChunkDataStep::NackNoState { .. }));
}

#[test]
fn waiter_insert_overwrites_equal_key() {
    let mut s = fresh();
    let key = ack_key("f", 0);
    s.insert_ack_waiter(key.clone(), 1);
    s.insert_ack_waiter(key.clone(), 2);
    let ack = ChunkAck { fileId: "f".to_string(), chunkIndex: 0, success: None, error: None };
    // The later waiter replaced the earlier one.
    assert_eq!(handle_chunk_ack(&mut s, &ack), Some((2, true)));
    assert_eq!(handle_chunk_ack(&mut s, &ack), None);
}
