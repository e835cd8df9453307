use ldm_core::downloader::{
    content_length, Download, DownloadAction, DownloadEvent, DownloadPhase, ProgressInfo,
};
use ldm_core::error::Error;

/// Plays a server that honours the range request and a file system, and
/// returns what the destination holds in the end.
fn transfer(source: &[u8], existing: usize, chunk: usize) -> (Vec<u8>, Vec<ProgressInfo>) {
    let mut file: Vec<u8> = source[..existing].to_vec();
    let on_disk = if existing > 0 { Some(existing as u64) } else { None };
    let (state, request) = Download::start(on_disk, Some(source.len() as u64));
    let from = match request {
        DownloadAction::Request { range: None } => 0,
        DownloadAction::Request { range: Some(r) } => {
            assert_eq!(r, format!("bytes={existing}-"));
            existing
        }
        other => panic!("unexpected {other:?}"),
    };
    let status = if from > 0 { 206 } else { 200 };
    let (mut state, open) = state.step(DownloadEvent::Response { status });
    match open {
        DownloadAction::Open { append: true } => {}
        DownloadAction::Open { append: false } => file.clear(),
        other => panic!("unexpected {other:?}"),
    }
    let mut seen = Vec::new();
    for part in source[from..].chunks(chunk) {
        file.extend_from_slice(part);
        let (next, action) = state.step(DownloadEvent::Chunk { len: part.len() as u64 });
        state = next;
        match action {
            DownloadAction::Report { progress } => seen.push(progress),
            other => panic!("unexpected {other:?}"),
        }
    }
    let (state, action) = state.step(DownloadEvent::End);
    assert_eq!(action, DownloadAction::Finish);
    assert_eq!(state.phase, DownloadPhase::Finished);
    assert_eq!(state.downloaded, source.len() as u64);
    (file, seen)
}

#[test]
fn resume_restores_the_source_for_every_offset() {
    let source: Vec<u8> = (0..=40u8).collect();
    for existing in 0..=source.len() {
        let (file, _) = transfer(&source, existing, 7);
        assert_eq!(file, source);
    }
}

#[test]
fn progress_counts_from_the_resume_offset() {
    let source: Vec<u8> = (0..20u8).collect();
    let (_, seen) = transfer(&source, 5, 6);
    assert_eq!(
        seen,
        vec![
            ProgressInfo { downloaded: 11, total: Some(20) },
            ProgressInfo { downloaded: 17, total: Some(20) },
            ProgressInfo { downloaded: 20, total: Some(20) },
        ]
    );
}

#[test]
fn fresh_download_sends_no_range_and_creates_the_file() {
    let (state, request) = Download::start(None, None);
    assert_eq!(request, DownloadAction::Request { range: None });
    assert_eq!(state.offset, 0);
    assert_eq!(state.total, None);
    let (_, action) = state.step(DownloadEvent::Response { status: 200 });
    assert_eq!(action, DownloadAction::Open { append: false });
    let (state, request) = Download::start(Some(0), Some(9));
    assert_eq!(request, DownloadAction::Request { range: None });
    let (_, action) = state.step(DownloadEvent::Response { status: 200 });
    assert_eq!(action, DownloadAction::Open { append: false });
}

#[test]
fn resumed_download_asks_for_the_rest_and_appends() {
    let (state, request) = Download::start(Some(1048576), Some(10485760));
    assert_eq!(request, DownloadAction::Request { range: Some("bytes=1048576-".to_string()) });
    assert_eq!(state.downloaded, 1048576);
    let (state, action) = state.step(DownloadEvent::Response { status: 206 });
    assert_eq!(action, DownloadAction::Open { append: true });
    let (_, action) = state.step(DownloadEvent::Chunk { len: 10 });
    assert_eq!(
        action,
        DownloadAction::Report {
            progress: ProgressInfo { downloaded: 1048586, total: Some(10485760) }
        }
    );
    let (_, request) = Download::start(Some(u64::MAX), None);
    assert_eq!(
        request,
        DownloadAction::Request { range: Some("bytes=18446744073709551615-".to_string()) }
    );
}

#[test]
fn other_statuses_are_fatal() {
    for code in [100u16, 199, 201, 204, 301, 404, 416, 500] {
        let (state, _) = Download::start(Some(3), None);
        let (state, action) = state.step(DownloadEvent::Response { status: code });
        assert_eq!(action, DownloadAction::Fail { error: Error::UnexpectedStatus { code } });
        assert_eq!(state.phase, DownloadPhase::Failed);
    }
}

#[test]
fn events_out_of_order_end_the_transfer() {
    let (state, _) = Download::start(None, None);
    let (state, action) = state.step(DownloadEvent::Chunk { len: 1 });
    assert_eq!(action, DownloadAction::Fail { error: Error::UnexpectedEvent });
    assert_eq!(state.phase, DownloadPhase::Failed);
    let (state, _) = Download::start(None, None);
    let (state, _) = state.step(DownloadEvent::Response { status: 200 });
    let (state, _) = state.step(DownloadEvent::End);
    let (_, action) = state.step(DownloadEvent::Chunk { len: 1 });
    assert_eq!(action, DownloadAction::Fail { error: Error::UnexpectedEvent });
    let (state, _) = Download::start(None, None);
    let (state, _) = state.step(DownloadEvent::Response { status: 200 });
    let (_, action) = state.step(DownloadEvent::Response { status: 200 });
    assert_eq!(action, DownloadAction::Fail { error: Error::UnexpectedEvent });
}

#[test]
fn content_length_reads_a_decimal_numeral() {
    assert_eq!(content_length(Some("10485760")), Some(10485760));
    assert_eq!(content_length(Some("0")), Some(0));
    assert_eq!(content_length(Some("007")), Some(7));
    assert_eq!(content_length(Some("+12")), Some(12));
    assert_eq!(content_length(Some("18446744073709551615")), Some(u64::MAX));
}

#[test]
fn content_length_is_unknown_otherwise() {
    assert_eq!(content_length(None), None);
    assert_eq!(content_length(Some("")), None);
    assert_eq!(content_length(Some("+")), None);
    assert_eq!(content_length(Some("-1")), None);
    assert_eq!(content_length(Some("12 ")), None);
    assert_eq!(content_length(Some("1e3")), None);
    assert_eq!(content_length(Some("++1")), None);
    assert_eq!(content_length(Some("18446744073709551616")), None);
    assert_eq!(content_length(Some("99999999999999999999999")), None);
}
