use acgs_launcher::{begin_download, LaunchError};

#[test]
fn four_chunks_of_twenty_five() {
    let mut s = begin_download(true, "200 OK".to_string(), Some(100)).ok().unwrap();
    let mut seen = Vec::new();
    for _ in 0..4 {
        assert!(s.can_accept(25));
        let e = s.record_chunk(25);
        assert_eq!(e.total, Some(100));
        seen.push(e.downloaded);
    }
    assert_eq!(seen, vec![25, 50, 75, 100]);
    assert_eq!(s.downloaded(), 100);
    assert_eq!(s.finish(), 100);
}

#[test]
fn unknown_total_is_carried() {
    let mut s = begin_download(true, "200 OK".to_string(), None).ok().unwrap();
    assert_eq!(s.total(), None);
    let e = s.record_chunk(7);
    assert_eq!(e.downloaded, 7);
    assert_eq!(e.total, None);
    let e = s.record_chunk(0);
    assert_eq!(e.downloaded, 7);
}

#[test]
fn failed_status_starts_nothing() {
    match begin_download(false, "404 Not Found".to_string(), Some(10)) {
        Err(LaunchError::DownloadStatus(text)) => assert_eq!(text, "404 Not Found"),
        _ => panic!("expected a status failure"),
    }
}

#[test]
fn counter_refuses_overflow() {
    let mut s = begin_download(true, "200 OK".to_string(), None).ok().unwrap();
    s.record_chunk(10);
    assert!(s.can_accept(1000));
    if usize::BITS == 64 {
        assert!(!s.can_accept(usize::MAX));
    }
}
