use vstd::prelude::*;
use crate::body::HybridBody;
use crate::poll::{HybridError, Progress};
use crate::routing::Route;

verus! {

/// The web handler's completion as the union reports it: a response
/// envelope with its body tagged as a web body, or a web error.
pub open spec fn web_resolution<Head, WebBody, GrpcBody, WebError, GrpcError>(
    p: Progress<Result<(Head, WebBody), WebError>>,
) -> Progress<Result<(Head, HybridBody<WebBody, GrpcBody>), HybridError<WebError, GrpcError>>> {
    match p {
        Progress::Ready(Ok((head, body))) => Progress::Ready(Ok((head, HybridBody::Web(body)))),
        Progress::Ready(Err(e)) => Progress::Ready(Err(HybridError::Web(e))),
        Progress::Pending => Progress::Pending,
    }
}

/// The RPC handler's completion as the union reports it: a response
/// envelope with its body tagged as an RPC body, or an RPC error.
pub open spec fn rpc_resolution<Head, WebBody, GrpcBody, WebError, GrpcError>(
    p: Progress<Result<(Head, GrpcBody), GrpcError>>,
) -> Progress<Result<(Head, HybridBody<WebBody, GrpcBody>), HybridError<WebError, GrpcError>>> {
    match p {
        Progress::Ready(Ok((head, body))) => Progress::Ready(Ok((head, HybridBody::Grpc(body)))),
        Progress::Ready(Err(e)) => Progress::Ready(Err(HybridError::Grpc(e))),
        Progress::Pending => Progress::Pending,
    }
}

/// The state of a response being computed by one of the two handlers: which
/// handler computes it, and whether its outcome has been taken out. Once
/// resolved it cannot be polled again.
pub struct PendingResponse {
    route: Route,
    resolved: bool,
}

impl PendingResponse {
    /// The handler that computes the response.
    pub closed spec fn branch(&self) -> Route {
        self.route
    }

    /// Whether the outcome has been taken out.
    pub closed spec fn done(&self) -> bool {
        self.resolved
    }

    /// A response in flight on the handler that `route` names.
    pub fn new(route: Route) -> (r: PendingResponse)
        ensures
            r.branch() == route,
            !r.done(),
    {
        PendingResponse { route, resolved: false }
    }

    pub fn route(&self) -> (r: Route)
        ensures
            r == self.branch(),
    {
        self.route
    }

    pub fn is_resolved(&self) -> (r: bool)
        ensures
            r == self.done(),
    {
        self.resolved
    }

    /// Takes in what one poll of the web handler's computation reported.
    /// While it is pending so is the response; once it is ready the response
    /// is resolved, with the body tagged as a web body or the error as a web
    /// error.
    pub fn poll_web<Head, WebBody, GrpcBody, WebError, GrpcError>(
        &mut self,
        p: Progress<Result<(Head, WebBody), WebError>>,
    ) -> (r: Progress<Result<(Head, HybridBody<WebBody, GrpcBody>), HybridError<WebError, GrpcError>>>)
        requires
            old(self).branch() == Route::Web,
            !old(self).done(),
        ensures
            r == web_resolution::<Head, WebBody, GrpcBody, WebError, GrpcError>(p),
            final(self).branch() == old(self).branch(),
            final(self).done() == (p is Ready),
    {
        match p {
            Progress::Ready(Ok((head, body))) => {
                self.resolved = true;
                Progress::Ready(Ok((head, HybridBody::Web(body))))
            },
            Progress::Ready(Err(e)) => {
                self.resolved = true;
                Progress::Ready(Err(HybridError::Web(e)))
            },
            Progress::Pending => Progress::Pending,
        }
    }

    /// Takes in what one poll of the RPC handler's computation reported.
    /// While it is pending so is the response; once it is ready the response
    /// is resolved, with the body tagged as an RPC body or the error as an
    /// RPC error.
    pub fn poll_rpc<Head, WebBody, GrpcBody, WebError, GrpcError>(
        &mut self,
        p: Progress<Result<(Head, GrpcBody), GrpcError>>,
    ) -> (r: Progress<Result<(Head, HybridBody<WebBody, GrpcBody>), HybridError<WebError, GrpcError>>>)
        requires
            old(self).branch() == Route::Rpc,
            !old(self).done(),
        ensures
            r == rpc_resolution::<Head, WebBody, GrpcBody, WebError, GrpcError>(p),
            final(self).branch() == old(self).branch(),
            final(self).done() == (p is Ready),
    {
        match p {
            Progress::Ready(Ok((head, body))) => {
                self.resolved = true;
                Progress::Ready(Ok((head, HybridBody::Grpc(body))))
            },
            Progress::Ready(Err(e)) => {
                self.resolved = true;
                Progress::Ready(Err(HybridError::Grpc(e)))
            },
            Progress::Pending => Progress::Pending,
        }
    }
}

/// A computation's outcome is reported exactly when the computation is
/// ready, and a successful response keeps its envelope and gets its body
/// tagged with the branch that computed it.
pub proof fn lemma_resolution_tags_branch<Head, WebBody, GrpcBody, WebError, GrpcError>(
    web: Progress<Result<(Head, WebBody), WebError>>,
    rpc: Progress<Result<(Head, GrpcBody), GrpcError>>,
)
    ensures
        web is Ready <==> web_resolution::<Head, WebBody, GrpcBody, WebError, GrpcError>(
            web,
        ) is Ready,
        rpc is Ready <==> rpc_resolution::<Head, WebBody, GrpcBody, WebError, GrpcError>(
            rpc,
        ) is Ready,
        web matches Progress::Ready(Ok((h, b))) ==> web_resolution::<
            Head,
            WebBody,
            GrpcBody,
            WebError,
            GrpcError,
        >(web) == Progress::<
            Result<(Head, HybridBody<WebBody, GrpcBody>), HybridError<WebError, GrpcError>>,
        >::Ready(Ok((h, HybridBody::Web(b)))),
        rpc matches Progress::Ready(Ok((h, b))) ==> rpc_resolution::<
            Head,
            WebBody,
            GrpcBody,
            WebError,
            GrpcError,
        >(rpc) == Progress::<
            Result<(Head, HybridBody<WebBody, GrpcBody>), HybridError<WebError, GrpcError>>,
        >::Ready(Ok((h, HybridBody::Grpc(b)))),
{
}

} // verus!
