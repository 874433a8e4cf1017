use vstd::prelude::*;
use crate::poll::{HybridError, Progress};

verus! {

/// What the dispatcher does after hearing from the web handler's readiness:
/// go on to ask the RPC handler, or report a status without asking it.
#[derive(Debug, PartialEq, Eq)]
pub enum ReadyStep<E> {
    PollRpc,
    Report(Progress<Result<(), E>>),
}

/// A readiness status, as a handler or the dispatcher reports it.
pub type Readiness<E> = Progress<Result<(), E>>;

/// Whether a status says ready.
pub open spec fn is_ready<E>(s: Readiness<E>) -> bool {
    s matches Progress::Ready(Ok(_))
}

/// The web handler's status, with its error tagged as a web error.
pub open spec fn web_status<WebError, GrpcError>(s: Readiness<WebError>) -> Readiness<
    HybridError<WebError, GrpcError>,
> {
    match s {
        Progress::Ready(Ok(_)) => Progress::Ready(Ok(())),
        Progress::Ready(Err(e)) => Progress::Ready(Err(HybridError::Web(e))),
        Progress::Pending => Progress::Pending,
    }
}

/// The RPC handler's status, with its error tagged as an RPC error.
pub open spec fn rpc_status<WebError, GrpcError>(s: Readiness<GrpcError>) -> Readiness<
    HybridError<WebError, GrpcError>,
> {
    match s {
        Progress::Ready(Ok(_)) => Progress::Ready(Ok(())),
        Progress::Ready(Err(e)) => Progress::Ready(Err(HybridError::Grpc(e))),
        Progress::Pending => Progress::Pending,
    }
}

/// The dispatcher's status over one cycle: the web handler's, unless it is
/// ready, and then the RPC handler's.
pub open spec fn dispatcher_status<WebError, GrpcError>(
    web: Readiness<WebError>,
    rpc: Readiness<GrpcError>,
) -> Readiness<HybridError<WebError, GrpcError>> {
    if is_ready(web) {
        rpc_status(rpc)
    } else {
        web_status(web)
    }
}

/// First step of a readiness check: the web handler has answered. Only a
/// ready web handler leads on to the RPC handler; any other status is
/// reported as it is, without consulting the RPC handler.
pub fn after_web_ready<WebError, GrpcError>(web: Readiness<WebError>) -> (r: ReadyStep<
    HybridError<WebError, GrpcError>,
>)
    ensures
        is_ready(web) ==> r == ReadyStep::<HybridError<WebError, GrpcError>>::PollRpc,
        !is_ready(web) ==> r == ReadyStep::Report(web_status::<WebError, GrpcError>(web)),
{
    match web {
        Progress::Ready(Ok(_)) => ReadyStep::PollRpc,
        Progress::Ready(Err(e)) => ReadyStep::Report(Progress::Ready(Err(HybridError::Web(e)))),
        Progress::Pending => ReadyStep::Report(Progress::Pending),
    }
}

/// Second step of a readiness check, after a ready web handler: the RPC
/// handler's status is the dispatcher's.
pub fn after_rpc_ready<WebError, GrpcError>(rpc: Readiness<GrpcError>) -> (r: Readiness<
    HybridError<WebError, GrpcError>,
>)
    ensures
        r == rpc_status::<WebError, GrpcError>(rpc),
{
    match rpc {
        Progress::Ready(Ok(_)) => Progress::Ready(Ok(())),
        Progress::Ready(Err(e)) => Progress::Ready(Err(HybridError::Grpc(e))),
        Progress::Pending => Progress::Pending,
    }
}

/// The dispatcher's status over one cycle is the RPC handler's when the web
/// handler is ready and the web handler's otherwise, as the two steps report
/// them; it says ready only when both handlers are ready.
pub proof fn lemma_readiness_cycle<WebError, GrpcError>(
    web: Readiness<WebError>,
    rpc: Readiness<GrpcError>,
)
    ensures
        is_ready(web) ==> dispatcher_status::<WebError, GrpcError>(web, rpc) == rpc_status::<
            WebError,
            GrpcError,
        >(rpc),
        !is_ready(web) ==> dispatcher_status::<WebError, GrpcError>(web, rpc) == web_status::<
            WebError,
            GrpcError,
        >(web),
        is_ready(dispatcher_status::<WebError, GrpcError>(web, rpc)) <==> (is_ready(web)
            && is_ready(rpc)),
{
}

/// When the web handler is not ready, the dispatcher's status does not depend
/// on the RPC handler at all: it is the web handler's status.
pub proof fn lemma_web_not_ready_short_circuits<WebError, GrpcError>(
    web: Readiness<WebError>,
    rpc1: Readiness<GrpcError>,
    rpc2: Readiness<GrpcError>,
)
    requires
        !is_ready(web),
    ensures
        dispatcher_status::<WebError, GrpcError>(web, rpc1) == dispatcher_status::<
            WebError,
            GrpcError,
        >(web, rpc2),
        dispatcher_status::<WebError, GrpcError>(web, rpc1) == web_status::<WebError, GrpcError>(
            web,
        ),
{
}

} // verus!
