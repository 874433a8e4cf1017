use hybrid_service::{
    forward_rpc_chunk, forward_rpc_trailers, forward_web_chunk, forward_web_trailers, HybridBody,
    HybridError, Progress,
};

type Chunk = Progress<Option<Result<Vec<u8>, String>>>;

fn stream() -> Vec<Chunk> {
    vec![
        Progress::Pending,
        Progress::Ready(Some(Ok(b"Hello ".to_vec()))),
        Progress::Ready(Some(Ok(b"world!".to_vec()))),
        Progress::Ready(None),
    ]
}

#[test]
fn web_body_chunks_pass_through() {
    let out: Vec<_> = stream().into_iter().map(forward_web_chunk::<Vec<u8>, String, u8>).collect();
    assert_eq!(
        out,
        vec![
            Progress::Pending,
            Progress::Ready(Some(Ok(b"Hello ".to_vec()))),
            Progress::Ready(Some(Ok(b"world!".to_vec()))),
            Progress::Ready(None),
        ]
    );
}

#[test]
fn rpc_body_chunks_pass_through() {
    let out: Vec<_> = stream().into_iter().map(forward_rpc_chunk::<Vec<u8>, u8, String>).collect();
    assert_eq!(
        out,
        vec![
            Progress::Pending,
            Progress::Ready(Some(Ok(b"Hello ".to_vec()))),
            Progress::Ready(Some(Ok(b"world!".to_vec()))),
            Progress::Ready(None),
        ]
    );
}

#[test]
fn web_chunk_error_is_tagged_web() {
    let r = forward_web_chunk::<Vec<u8>, String, u8>(Progress::Ready(Some(Err("reset".to_string()))));
    assert_eq!(r, Progress::Ready(Some(Err(HybridError::Web("reset".to_string())))));
    match r {
        Progress::Ready(Some(Err(HybridError::Web(e)))) => assert_eq!(e.to_string(), "reset"),
        _ => panic!("expected a web error"),
    }
}

#[test]
fn rpc_chunk_error_is_tagged_rpc() {
    let r = forward_rpc_chunk::<Vec<u8>, u8, String>(Progress::Ready(Some(Err("broken".to_string()))));
    assert_eq!(r, Progress::Ready(Some(Err(HybridError::Grpc("broken".to_string())))));
}

#[test]
fn trailers_pass_through() {
    let trailers = || -> Progress<Result<Option<Vec<(String, String)>>, String>> {
        Progress::Ready(Ok(Some(vec![("grpc-status".to_string(), "0".to_string())])))
    };
    assert_eq!(
        forward_rpc_trailers::<_, u8, String>(trailers()),
        Progress::Ready(Ok(Some(vec![("grpc-status".to_string(), "0".to_string())])))
    );
    assert_eq!(
        forward_web_trailers::<_, String, u8>(trailers()),
        Progress::Ready(Ok(Some(vec![("grpc-status".to_string(), "0".to_string())])))
    );
    assert_eq!(
        forward_web_trailers::<Vec<u8>, String, u8>(Progress::Ready(Ok(None))),
        Progress::Ready(Ok(None))
    );
    assert_eq!(forward_rpc_trailers::<Vec<u8>, u8, String>(Progress::Pending), Progress::Pending);
}

#[test]
fn trailer_errors_are_tagged() {
    assert_eq!(
        forward_web_trailers::<u8, &str, &str>(Progress::Ready(Err("w"))),
        Progress::Ready(Err(HybridError::Web("w")))
    );
    assert_eq!(
        forward_rpc_trailers::<u8, &str, &str>(Progress::Ready(Err("g"))),
        Progress::Ready(Err(HybridError::Grpc("g")))
    );
}

#[test]
fn body_tag_names_branch() {
    let w: HybridBody<u8, u8> = HybridBody::Web(0);
    let g: HybridBody<u8, u8> = HybridBody::Grpc(0);
    assert!(w.is_web());
    assert!(!g.is_web());
}
