use hybrid_service::{forward_rpc_chunk, HybridBody, HybridService, Progress, Route};
use tower::ServiceExt;

fn web_status_and_body(path: &str, content_type: Option<&str>) -> (Route, u16, Vec<u8>) {
    let rt = tokio::runtime::Runtime::new().unwrap();
    rt.block_on(async {
        let web = axum::Router::new().route("/", axum::handler::get(|| async { "Hello world!" }));
        let mut builder = hyper::Request::builder().uri(path);
        if let Some(ct) = content_type {
            builder = builder.header("content-type", ct);
        }
        let req = builder.body(hyper::Body::empty()).unwrap();
        let svc = HybridService { web: (), grpc: () };
        let mut pending = svc.dispatch(req.headers().get("content-type").map(|v| v.as_bytes()));
        let route = pending.route();
        assert_eq!(route, Route::Web);
        let res = web.oneshot(req).await.unwrap();
        let (parts, body) = res.into_parts();
        let out = pending.poll_web::<_, _, hyper::Body, std::convert::Infallible, hyper::Error>(
            Progress::Ready(Ok((parts, body))),
        );
        assert!(pending.is_resolved());
        match out {
            Progress::Ready(Ok((parts, HybridBody::Web(body)))) => {
                let bytes = hyper::body::to_bytes(body).await.unwrap();
                (route, parts.status.as_u16(), bytes.to_vec())
            }
            _ => panic!("expected a web response"),
        }
    })
}

#[test]
fn no_content_type_gets_web_hello() {
    let (route, status, body) = web_status_and_body("/", None);
    assert_eq!(route, Route::Web);
    assert_eq!(status, 200);
    assert_eq!(body, b"Hello world!".to_vec());
}

#[test]
fn text_plain_goes_to_web_on_any_path() {
    let (route, status, body) = web_status_and_body("/", Some("text/plain"));
    assert_eq!(route, Route::Web);
    assert_eq!(status, 200);
    assert_eq!(body, b"Hello world!".to_vec());
    let (route, status, _) = web_status_and_body("/grpc.health.v1.Health/Check", Some("text/plain"));
    assert_eq!(route, Route::Web);
    assert_eq!(status, 404);
}

#[test]
fn grpc_request_streams_rpc_body_unmodified() {
    let svc = HybridService { web: (), grpc: () };
    let mut pending = svc.dispatch(Some(b"application/grpc".as_slice()));
    assert_eq!(pending.route(), Route::Rpc);
    // A length-prefixed unary reply frame and the end of the stream.
    let frame: Vec<u8> = vec![0, 0, 0, 0, 3, 10, 1, 104];
    let out = pending.poll_rpc::<u16, (), Vec<Progress<Option<Result<Vec<u8>, String>>>>, (), String>(
        Progress::Ready(Ok((200, vec![Progress::Ready(Some(Ok(frame.clone()))), Progress::Ready(None)]))),
    );
    match out {
        Progress::Ready(Ok((200, HybridBody::Grpc(chunks)))) => {
            let streamed: Vec<_> = chunks.into_iter().map(forward_rpc_chunk::<Vec<u8>, (), String>).collect();
            assert_eq!(streamed, vec![Progress::Ready(Some(Ok(frame))), Progress::Ready(None)]);
        }
        _ => panic!("expected an RPC response"),
    }
}
