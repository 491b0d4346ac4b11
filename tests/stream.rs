use kubeapi::client::{failure_error, is_success, response_result};
use kubeapi::error::{CallError, DecodeError, DecodeStage, HttpStatusError, Status};
use kubeapi::frame::{split_records, FrameError, FrameSplitter};
use kubeapi::request::{GroupVersionResource, ListOptions};
use kubeapi::stream::{Pager, WatchStream};

fn chunks(parts: &[&str]) -> Vec<Vec<u8>> {
    parts.iter().map(|p| p.as_bytes().to_vec()).collect()
}

fn records(parts: &[&str]) -> Vec<Vec<u8>> {
    chunks(parts)
}

#[test]
fn splitting_ignores_chunk_boundaries() {
    let want = records(&["a", "b", "c"]);
    for input in [
        vec!["a\nb\nc\n"],
        vec!["a\n", "b\nc\n"],
        vec!["a", "\n", "b", "\n", "c", "\n"],
    ] {
        assert_eq!(split_records(&chunks(&input)), Ok(want.clone()));
    }
}

#[test]
fn splitter_keeps_partial_record() {
    let mut s = FrameSplitter::new();
    assert_eq!(s.push_chunk(b"a\nb"), records(&["a"]));
    assert_eq!(s.finish(), Err(FrameError::Truncated(b"b".to_vec())));
    assert_eq!(s.push_chunk(b"\nc"), records(&["b"]));
    assert_eq!(s.push_chunk(b"\n\n"), records(&["c", ""]));
    assert_eq!(s.finish(), Ok(()));
}

#[test]
fn unterminated_stream_is_an_error() {
    let r = split_records(&chunks(&["a\nb\nc"]));
    assert_eq!(r, Err(FrameError::Truncated(b"c".to_vec())));
    assert_eq!(split_records(&Vec::new()), Ok(Vec::new()));
}

#[test]
fn response_classification() {
    assert!(is_success(200));
    assert!(is_success(299));
    assert!(!is_success(199));
    assert!(!is_success(404));
    let status = Status { code: 404, message: "not found".into(), reason: "NotFound".into() };
    assert_eq!(failure_error(404, Some(status.clone())), CallError::ApiStatus(status.clone()));
    assert_eq!(failure_error(502, None), CallError::HttpStatus(HttpStatusError { status: 502 }));
    assert_eq!(response_result::<u32>(200, Ok(7), None), Ok(7));
    assert_eq!(
        response_result::<u32>(201, Err("bad".into()), None),
        Err(CallError::Decode(DecodeError { stage: DecodeStage::ResponseBody, message: "bad".into() }))
    );
    assert_eq!(response_result::<u32>(404, Ok(7), Some(status.clone())), Err(CallError::ApiStatus(status)));
}

#[test]
fn watch_streams_lines_until_end() {
    let mut w = WatchStream::new();
    assert!(w.on_status(200));
    assert!(w.is_streaming());
    assert_eq!(w.on_chunk(b"{\"a\":1}\n{\"b\""), records(&["{\"a\":1}"]));
    assert_eq!(w.on_line::<u32>(Ok(1)), Ok(1));
    assert_eq!(w.on_chunk(b":2}\n"), records(&["{\"b\":2}"]));
    assert_eq!(w.on_end(), Ok(()));
    assert!(!w.is_streaming());
}

#[test]
fn watch_failure_status_produces_nothing() {
    let mut w = WatchStream::new();
    assert!(!w.on_status(403));
    assert!(!w.is_streaming());
}

#[test]
fn watch_decode_failure_ends_stream() {
    let mut w = WatchStream::new();
    assert!(w.on_status(200));
    let r = w.on_line::<u32>(Err("oops".into()));
    assert_eq!(
        r,
        Err(CallError::Decode(DecodeError { stage: DecodeStage::WatchLine, message: "oops".into() }))
    );
    assert!(!w.is_streaming());
}

#[test]
fn watch_truncated_body_is_an_error() {
    let mut w = WatchStream::new();
    assert!(w.on_status(200));
    assert_eq!(w.on_chunk(b"{\"a\""), Vec::<Vec<u8>>::new());
    assert_eq!(w.on_end(), Err(CallError::Frame(FrameError::Truncated(b"{\"a\"".to_vec()))));
}

#[test]
fn pager_follows_tokens_and_stops() {
    let gvr = GroupVersionResource { group: "".into(), version: "v1".into(), resource: "pods".into() };
    let mut p = Pager::new(gvr, None, ListOptions { limit: 2, ..Default::default() });
    let t = p.next_target().unwrap().unwrap();
    assert_eq!(t.query, Some("limit=2".to_string()));
    assert_eq!(p.on_page(vec![1, 2], Some("tok".into())), vec![1, 2]);
    let t = p.next_target().unwrap().unwrap();
    assert_eq!(t.query, Some("limit=2&continue=tok".to_string()));
    assert_eq!(p.on_page(vec![3], None), vec![3]);
    assert!(p.done);
    assert!(p.next_target().is_none());
}

#[test]
fn pager_failure_ends_sequence() {
    let gvr = GroupVersionResource { group: "".into(), version: "v1".into(), resource: "pods".into() };
    let mut p = Pager::new(gvr, Some("ns".into()), ListOptions::default());
    let e = p.on_failure(CallError::HttpStatus(HttpStatusError { status: 500 }));
    assert_eq!(e, CallError::HttpStatus(HttpStatusError { status: 500 }));
    assert!(p.next_target().is_none());
}

#[test]
fn chunkings_of_unterminated_stream_agree() {
    for input in [vec!["a\nb\nc"], vec!["a\n", "b\nc"], vec!["a", "\n", "b", "\n", "c"]] {
        let mut s = FrameSplitter::new();
        let mut got = Vec::new();
        for c in &input {
            got.extend(s.push_chunk(c.as_bytes()));
        }
        assert_eq!(got, records(&["a", "b"]));
        assert_eq!(s.finish(), Err(FrameError::Truncated(b"c".to_vec())));
        assert_eq!(
            split_records(&chunks(&input)),
            Err(FrameError::Truncated(b"c".to_vec()))
        );
    }
}

#[test]
fn delimiter_at_chunk_boundary() {
    let mut s = FrameSplitter::new();
    assert_eq!(s.push_chunk(b"ab"), Vec::<Vec<u8>>::new());
    assert_eq!(s.push_chunk(b"\n"), records(&["ab"]));
    assert_eq!(s.push_chunk(b"cd\n"), records(&["cd"]));
    assert_eq!(s.finish(), Ok(()));
}

#[test]
fn watch_transport_failure_ends_stream() {
    let mut w = WatchStream::new();
    assert!(w.on_status(200));
    let e = CallError::HttpStatus(HttpStatusError { status: 0 });
    assert_eq!(w.on_failure(e.clone()), e);
    assert!(!w.is_streaming());
}
