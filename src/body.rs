use vstd::prelude::*;
use crate::poll::{HybridError, Progress};

verus! {

/// A response body produced by the web handler or by the RPC handler. Both
/// branches yield chunks of one type.
#[derive(Debug, PartialEq, Eq)]
pub enum HybridBody<WebBody, GrpcBody> {
    Web(WebBody),
    Grpc(GrpcBody),
}

/// What one read of the next chunk reports: a chunk, the end of the stream,
/// or an error.
pub type ChunkPoll<D, E> = Progress<Option<Result<D, E>>>;

/// What one read of the trailers reports: the trailers if any, or an error.
pub type TrailerPoll<T, E> = Progress<Result<Option<T>, E>>;

/// A chunk read of the web body as the union reports it.
pub open spec fn web_chunk<D, WebError, GrpcError>(p: ChunkPoll<D, WebError>) -> ChunkPoll<
    D,
    HybridError<WebError, GrpcError>,
> {
    match p {
        Progress::Ready(Some(Ok(d))) => Progress::Ready(Some(Ok(d))),
        Progress::Ready(Some(Err(e))) => Progress::Ready(Some(Err(HybridError::Web(e)))),
        Progress::Ready(None) => Progress::Ready(None),
        Progress::Pending => Progress::Pending,
    }
}

/// A chunk read of the RPC body as the union reports it.
pub open spec fn rpc_chunk<D, WebError, GrpcError>(p: ChunkPoll<D, GrpcError>) -> ChunkPoll<
    D,
    HybridError<WebError, GrpcError>,
> {
    match p {
        Progress::Ready(Some(Ok(d))) => Progress::Ready(Some(Ok(d))),
        Progress::Ready(Some(Err(e))) => Progress::Ready(Some(Err(HybridError::Grpc(e)))),
        Progress::Ready(None) => Progress::Ready(None),
        Progress::Pending => Progress::Pending,
    }
}

/// A trailer read of the web body as the union reports it.
pub open spec fn web_trailers<T, WebError, GrpcError>(p: TrailerPoll<T, WebError>) -> TrailerPoll<
    T,
    HybridError<WebError, GrpcError>,
> {
    match p {
        Progress::Ready(Ok(t)) => Progress::Ready(Ok(t)),
        Progress::Ready(Err(e)) => Progress::Ready(Err(HybridError::Web(e))),
        Progress::Pending => Progress::Pending,
    }
}

/// A trailer read of the RPC body as the union reports it.
pub open spec fn rpc_trailers<T, WebError, GrpcError>(p: TrailerPoll<T, GrpcError>) -> TrailerPoll<
    T,
    HybridError<WebError, GrpcError>,
> {
    match p {
        Progress::Ready(Ok(t)) => Progress::Ready(Ok(t)),
        Progress::Ready(Err(e)) => Progress::Ready(Err(HybridError::Grpc(e))),
        Progress::Pending => Progress::Pending,
    }
}

/// Takes the web branch's tag off a chunk read of the union, where the error,
/// if any, is a web error.
pub open spec fn untag_web_chunk<D, WebError, GrpcError>(
    p: ChunkPoll<D, HybridError<WebError, GrpcError>>,
) -> ChunkPoll<D, WebError>
    recommends
        !(p matches Progress::Ready(Some(Err(HybridError::Grpc(_))))),
{
    match p {
        Progress::Ready(Some(Ok(d))) => Progress::Ready(Some(Ok(d))),
        Progress::Ready(Some(Err(HybridError::Web(e)))) => Progress::Ready(Some(Err(e))),
        Progress::Ready(Some(Err(HybridError::Grpc(_)))) => Progress::Pending,
        Progress::Ready(None) => Progress::Ready(None),
        Progress::Pending => Progress::Pending,
    }
}

/// Takes the RPC branch's tag off a chunk read of the union, where the error,
/// if any, is an RPC error.
pub open spec fn untag_rpc_chunk<D, WebError, GrpcError>(
    p: ChunkPoll<D, HybridError<WebError, GrpcError>>,
) -> ChunkPoll<D, GrpcError>
    recommends
        !(p matches Progress::Ready(Some(Err(HybridError::Web(_))))),
{
    match p {
        Progress::Ready(Some(Ok(d))) => Progress::Ready(Some(Ok(d))),
        Progress::Ready(Some(Err(HybridError::Grpc(e)))) => Progress::Ready(Some(Err(e))),
        Progress::Ready(Some(Err(HybridError::Web(_)))) => Progress::Pending,
        Progress::Ready(None) => Progress::Ready(None),
        Progress::Pending => Progress::Pending,
    }
}

impl<WebBody, GrpcBody> HybridBody<WebBody, GrpcBody> {
    /// Whether the body came from the web handler.
    pub fn is_web(&self) -> (r: bool)
        ensures
            r == (self is Web),
    {
        match self {
            HybridBody::Web(_) => true,
            HybridBody::Grpc(_) => false,
        }
    }
}

/// Forwards a chunk read of the web body: the chunk and the end of the stream
/// pass through unchanged, and an error comes out tagged as a web error.
pub fn forward_web_chunk<D, WebError, GrpcError>(p: ChunkPoll<D, WebError>) -> (r: ChunkPoll<
    D,
    HybridError<WebError, GrpcError>,
>)
    ensures
        r == web_chunk::<D, WebError, GrpcError>(p),
{
    match p {
        Progress::Ready(Some(Ok(d))) => Progress::Ready(Some(Ok(d))),
        Progress::Ready(Some(Err(e))) => Progress::Ready(Some(Err(HybridError::Web(e)))),
        Progress::Ready(None) => Progress::Ready(None),
        Progress::Pending => Progress::Pending,
    }
}

/// Forwards a chunk read of the RPC body: the chunk and the end of the stream
/// pass through unchanged, and an error comes out tagged as an RPC error.
pub fn forward_rpc_chunk<D, WebError, GrpcError>(p: ChunkPoll<D, GrpcError>) -> (r: ChunkPoll<
    D,
    HybridError<WebError, GrpcError>,
>)
    ensures
        r == rpc_chunk::<D, WebError, GrpcError>(p),
{
    match p {
        Progress::Ready(Some(Ok(d))) => Progress::Ready(Some(Ok(d))),
        Progress::Ready(Some(Err(e))) => Progress::Ready(Some(Err(HybridError::Grpc(e)))),
        Progress::Ready(None) => Progress::Ready(None),
        Progress::Pending => Progress::Pending,
    }
}

/// Forwards a trailer read of the web body: the trailers pass through
/// unchanged, and an error comes out tagged as a web error.
pub fn forward_web_trailers<T, WebError, GrpcError>(p: TrailerPoll<T, WebError>) -> (r: TrailerPoll<
    T,
    HybridError<WebError, GrpcError>,
>)
    ensures
        r == web_trailers::<T, WebError, GrpcError>(p),
{
    match p {
        Progress::Ready(Ok(t)) => Progress::Ready(Ok(t)),
        Progress::Ready(Err(e)) => Progress::Ready(Err(HybridError::Web(e))),
        Progress::Pending => Progress::Pending,
    }
}

/// Forwards a trailer read of the RPC body: the trailers pass through
/// unchanged, and an error comes out tagged as an RPC error.
pub fn forward_rpc_trailers<T, WebError, GrpcError>(p: TrailerPoll<T, GrpcError>) -> (r: TrailerPoll<
    T,
    HybridError<WebError, GrpcError>,
>)
    ensures
        r == rpc_trailers::<T, WebError, GrpcError>(p),
{
    match p {
        Progress::Ready(Ok(t)) => Progress::Ready(Ok(t)),
        Progress::Ready(Err(e)) => Progress::Ready(Err(HybridError::Grpc(e))),
        Progress::Pending => Progress::Pending,
    }
}

/// Streaming a web body through the union yields, read by read, what streaming
/// the web body itself yields: the same chunks, the same end of stream and the
/// same trailers, and each error is exactly the web body's, tagged as a web
/// error.
pub proof fn lemma_web_body_transparent<D, T, WebError, GrpcError>(
    chunks: Seq<ChunkPoll<D, WebError>>,
    trailers: TrailerPoll<T, WebError>,
)
    ensures
        forall|i: int|
            0 <= i < chunks.len() ==> untag_web_chunk(
                #[trigger] web_chunk::<D, WebError, GrpcError>(chunks[i]),
            ) == chunks[i],
        forall|i: int|
            0 <= i < chunks.len() ==> (chunks[i] matches Progress::Ready(Some(Err(e)))
                ==> #[trigger] web_chunk::<D, WebError, GrpcError>(chunks[i]) == Progress::<
                Option<Result<D, HybridError<WebError, GrpcError>>>,
            >::Ready(Some(Err(HybridError::Web(e))))),
        trailers matches Progress::Ready(Ok(t)) ==> web_trailers::<T, WebError, GrpcError>(
            trailers,
        ) == Progress::<Result<Option<T>, HybridError<WebError, GrpcError>>>::Ready(Ok(t)),
        trailers matches Progress::Ready(Err(e)) ==> web_trailers::<T, WebError, GrpcError>(
            trailers,
        ) == Progress::<Result<Option<T>, HybridError<WebError, GrpcError>>>::Ready(
            Err(HybridError::Web(e)),
        ),
        trailers is Pending ==> web_trailers::<T, WebError, GrpcError>(trailers) is Pending,
{
}

/// Streaming an RPC body through the union yields, read by read, what
/// streaming the RPC body itself yields: the same chunks, the same end of
/// stream and the same trailers, and each error is exactly the RPC body's,
/// tagged as an RPC error.
pub proof fn lemma_rpc_body_transparent<D, T, WebError, GrpcError>(
    chunks: Seq<ChunkPoll<D, GrpcError>>,
    trailers: TrailerPoll<T, GrpcError>,
)
    ensures
        forall|i: int|
            0 <= i < chunks.len() ==> untag_rpc_chunk(
                #[trigger] rpc_chunk::<D, WebError, GrpcError>(chunks[i]),
            ) == chunks[i],
        forall|i: int|
            0 <= i < chunks.len() ==> (chunks[i] matches Progress::Ready(Some(Err(e)))
                ==> #[trigger] rpc_chunk::<D, WebError, GrpcError>(chunks[i]) == Progress::<
                Option<Result<D, HybridError<WebError, GrpcError>>>,
            >::Ready(Some(Err(HybridError::Grpc(e))))),
        trailers matches Progress::Ready(Ok(t)) ==> rpc_trailers::<T, WebError, GrpcError>(
            trailers,
        ) == Progress::<Result<Option<T>, HybridError<WebError, GrpcError>>>::Ready(Ok(t)),
        trailers matches Progress::Ready(Err(e)) ==> rpc_trailers::<T, WebError, GrpcError>(
            trailers,
        ) == Progress::<Result<Option<T>, HybridError<WebError, GrpcError>>>::Ready(
            Err(HybridError::Grpc(e)),
        ),
        trailers is Pending ==> rpc_trailers::<T, WebError, GrpcError>(trailers) is Pending,
{
}

} // verus!
