use mdap::handler::{mjpeg, relay, OutboundResponse, STATUS_BAD_GATEWAY};
use mdap::stream::{BodyEvent, ByteStream};
use mdap::trace::{make_context, RequestContext, Scope};
use mdap::upstream::FetchError;
use mdap::validate::{validate, validate_parts, UpstreamResponse, ValidationError};
use mdap::rqid::RqId;

fn scope_for(id: u64) -> Scope {
    let ctx = RequestContext {
        id,
        client: "127.0.0.1:40000".to_string(),
        method: "GET".to_string(),
        path: "/".to_string(),
        start: 0,
    };
    Scope::open_scope(ctx)
}

fn upstream(status: u16, content_type: Option<&str>, chunks: Vec<Vec<u8>>) -> UpstreamResponse {
    UpstreamResponse {
        status,
        content_type: content_type.map(|c| c.to_string()),
        body: ByteStream::from_chunks(chunks),
    }
}

#[test]
fn non_200_statuses_yield_exactly_one_502() {
    for status in [401u16, 404, 500, 503] {
        let r = mjpeg(Ok(upstream(status, Some("video/x-motion-jpeg"), vec![])), scope_for(1));
        assert_eq!(r.status, STATUS_BAD_GATEWAY);
        assert!(r.content_type.is_none());
        let mut body = r.body;
        let out = body.drain();
        assert!(out.is_empty());
        assert_eq!(body.recorded_ends(), 1);
    }
}

#[test]
fn missing_content_type_yields_502() {
    let r = mjpeg(Ok(upstream(200, None, vec![b"data".to_vec()])), scope_for(2));
    assert_eq!(r.status, STATUS_BAD_GATEWAY);
    assert!(r.content_type.is_none());
    let mut body = r.body;
    assert!(body.drain().is_empty());
}

#[test]
fn successful_stream_round_trips_byte_for_byte() {
    let chunks = vec![b"--frame\r\n".to_vec(), b"\xff\xd8jpegdata\xff\xd9".to_vec(), b"--frame--".to_vec()];
    let ct = "multipart/x-mixed-replace; boundary=frame";
    let r = mjpeg(Ok(upstream(200, Some(ct), chunks.clone())), scope_for(3));
    assert_eq!(r.status, 200);
    assert_eq!(r.content_type.as_deref(), Some(ct));
    let mut body = r.body;
    let out = body.drain();
    assert_eq!(out, chunks);
    let flat: Vec<u8> = out.iter().flatten().copied().collect();
    let upstream_flat: Vec<u8> = chunks.iter().flatten().copied().collect();
    assert_eq!(flat, upstream_flat);
    assert_eq!(body.recorded_ends(), 1);
}

#[test]
fn empty_body_round_trips() {
    let r = mjpeg(Ok(upstream(200, Some("multipart/x-mixed-replace"), vec![])), scope_for(4));
    assert_eq!(r.status, 200);
    let mut body = r.body;
    assert!(body.drain().is_empty());
    assert_eq!(body.recorded_ends(), 1);
}

#[test]
fn fetch_error_yields_502_with_lifecycle_pair() {
    let r = mjpeg(Err(FetchError::Network), scope_for(5));
    assert_eq!(r.status, STATUS_BAD_GATEWAY);
    assert!(r.content_type.is_none());
    let mut body = r.body;
    let out = body.drain();
    assert!(out.is_empty());
    assert_eq!(body.recorded_ends(), 1);
    assert!(body.finished());
}

#[test]
fn client_abort_mid_stream_releases_upstream_and_closes_once() {
    let chunks = vec![b"one".to_vec(), b"two".to_vec(), b"three".to_vec()];
    let body = ByteStream::from_chunks(chunks);
    let r = relay("multipart/x-mixed-replace".to_string(), body, scope_for(6));
    let mut s = r.body;
    assert_eq!(s.poll_next(), BodyEvent::Chunk(b"one".to_vec()));
    assert_eq!(s.recorded_ends(), 0);
    s.abort();
    assert!(s.finished());
    assert!(s.upstream_released());
    assert_eq!(s.recorded_ends(), 1);
    s.abort();
    assert_eq!(s.recorded_ends(), 1);
}

#[test]
fn upstream_error_is_surfaced_and_closes_once() {
    let body = ByteStream::from_chunks_failing(vec![b"partial".to_vec()]);
    let r = relay("multipart/x-mixed-replace".to_string(), body, scope_for(7));
    let mut s = r.body;
    assert_eq!(s.poll_next(), BodyEvent::Chunk(b"partial".to_vec()));
    assert_eq!(s.poll_next(), BodyEvent::Error);
    assert!(s.finished());
    assert_eq!(s.recorded_ends(), 1);
}

#[test]
fn clean_end_is_reported_as_end() {
    let body = ByteStream::from_chunks(vec![b"only".to_vec()]);
    let r = relay("multipart/x-mixed-replace".to_string(), body, scope_for(8));
    let mut s = r.body;
    assert_eq!(s.poll_next(), BodyEvent::Chunk(b"only".to_vec()));
    assert_eq!(s.poll_next(), BodyEvent::End);
    assert_eq!(s.recorded_ends(), 1);
}

#[test]
fn validate_reports_each_error_exactly() {
    assert_eq!(validate_parts(503, None), Err(ValidationError::BadStatus));
    assert_eq!(validate_parts(301, Some("text/html".to_string())), Err(ValidationError::BadStatus));
    assert_eq!(validate_parts(200, None), Err(ValidationError::MissingContentType));
    assert_eq!(
        validate_parts(200, Some("multipart/x-mixed-replace".to_string())),
        Ok("multipart/x-mixed-replace".to_string())
    );
}

#[test]
fn validate_forwards_the_untouched_body() {
    let u = upstream(200, Some("multipart/x-mixed-replace"), vec![b"frame".to_vec()]);
    match validate(u) {
        Ok(v) => {
            assert_eq!(v.content_type, "multipart/x-mixed-replace");
            let mut body = v.body;
            assert_eq!(body.pull(), BodyEvent::Chunk(b"frame".to_vec()));
            assert_eq!(body.pull(), BodyEvent::End);
        }
        Err(_) => panic!("valid upstream response was refused"),
    }
}

#[test]
fn request_ids_are_strictly_increasing_and_unique() {
    let mut ids = RqId::new();
    let n = 1000;
    let mut seen: Vec<u64> = Vec::new();
    for _ in 0..n {
        seen.push(ids.next());
    }
    for w in seen.windows(2) {
        assert!(w[0] < w[1]);
    }
    let mut dedup = seen.clone();
    dedup.sort();
    dedup.dedup();
    assert_eq!(dedup.len(), n);
    assert_eq!(ids.counter_value(), n as u64 + 1);
}

#[test]
fn context_takes_id_from_counter_and_defaults_client() {
    let mut ids = RqId::new();
    let ctx = make_context(&mut ids, None, "GET".to_string(), "/".to_string(), 42);
    assert_eq!(ctx.id, 1);
    assert_eq!(ctx.client, "unknown");
    assert_eq!(ctx.start, 42);
    let ctx2 = make_context(
        &mut ids,
        Some("10.0.0.9:5555".to_string()),
        "GET".to_string(),
        "/".to_string(),
        43,
    );
    assert_eq!(ctx2.id, 2);
    assert_eq!(ctx2.client, "10.0.0.9:5555");
}

#[test]
fn error_response_carries_request_scope() {
    let scope = scope_for(11);
    assert_eq!(scope.request_id(), 11);
    let r: OutboundResponse = mjpeg(Err(FetchError::Network), scope);
    let mut body = r.body;
    body.abort();
    assert_eq!(body.recorded_ends(), 1);
}
