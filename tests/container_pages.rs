use vorbis_rs::{EngineCall, NativeResources, OggStream, PageMode, PagePump};

#[test]
fn flush_writes_each_page_until_none_remain() {
    let mut s = OggStream::new(42);
    assert_eq!(s.serial(), 42);
    assert_eq!(s.init_call(), EngineCall::StreamInit { serial: 42 });
    assert_eq!(s.pending(), None);
    s.flush();
    assert_eq!(s.pending(), Some(EngineCall::StreamFlush));
    s.resume(1);
    assert_eq!(s.pending(), Some(EngineCall::WritePage));
    s.resume(0);
    assert_eq!(s.pending(), Some(EngineCall::StreamFlush));
    s.resume(0);
    assert_eq!(s.pending(), None);
}

#[test]
fn pending_pages_use_the_requested_gate() {
    let mut s = OggStream::new(1);
    s.write_pending_pages(None);
    assert_eq!(s.pending(), Some(EngineCall::StreamPageOut));
    s.abort();
    s.write_pending_pages(Some(255));
    assert_eq!(s.pending(), Some(EngineCall::StreamPageOutFill { min_bytes: 255 }));
    s.resume(1);
    assert!(matches!(s.pending(), Some(EngineCall::WritePage)));
    assert!(!s.is_pulling());
    let _ = (PageMode::Flush, PagePump::Idle);
}

#[test]
fn teardown_releases_dependents_first() {
    let all = NativeResources { stream: true, parameters: true, comments: true, session_state: true, working_block: true };
    assert_eq!(
        all.teardown_calls(),
        vec![
            EngineCall::StreamClear,
            EngineCall::BlockClear,
            EngineCall::DspClear,
            EngineCall::CommentClear,
            EngineCall::InfoClear,
        ]
    );
    let some = NativeResources { stream: false, parameters: true, comments: false, session_state: true, working_block: false };
    assert_eq!(some.teardown_calls(), vec![EngineCall::DspClear, EngineCall::InfoClear]);
    assert!(NativeResources::new().teardown_calls().is_empty());
}
