use vstd::prelude::*;
use crate::pending::PendingResponse;
use crate::poll::Progress;
use crate::routing::{route, route_of};

verus! {

/// The connection acceptor: the factory of web handlers and the shared RPC
/// handler, from which one dispatcher is built per connection.
pub struct HybridMakeService<MakeWeb, Grpc> {
    pub make_web: MakeWeb,
    pub grpc: Grpc,
}

/// The per-connection dispatcher: the connection's own web handler and a
/// handle to the shared RPC handler.
pub struct HybridService<Web, Grpc> {
    pub web: Web,
    pub grpc: Grpc,
}

impl<Web, Grpc> HybridService<Web, Grpc> {
    /// Starts a request whose `content-type` header value is `content_type`
    /// (`None` when absent): the response is in flight on the RPC handler when
    /// the value is exactly `application/grpc`, on the web handler otherwise.
    pub fn dispatch(&self, content_type: Option<&[u8]>) -> (r: PendingResponse)
        ensures
            r.branch() == route_of(
                match content_type {
                    Some(v) => Some(v@),
                    None => None,
                },
            ),
            !r.done(),
    {
        PendingResponse::new(route(content_type))
    }
}

/// Pairs a factory of web handlers with the shared RPC handler.
pub fn hybrid<MakeWeb, Grpc>(make_web: MakeWeb, grpc: Grpc) -> (r: HybridMakeService<
    MakeWeb,
    Grpc,
>)
    ensures
        r.make_web == make_web,
        r.grpc == grpc,
{
    HybridMakeService { make_web, grpc }
}

/// A dispatcher under construction for one connection: it holds the RPC
/// handle until the connection's web handler is ready, and hands it over
/// exactly once.
pub struct PendingDispatcher<Grpc> {
    grpc: Option<Grpc>,
}

impl<Grpc> PendingDispatcher<Grpc> {
    /// The RPC handle still held, if the dispatcher has not been built yet.
    pub closed spec fn held(&self) -> Option<Grpc> {
        self.grpc
    }

    /// Starts building a dispatcher with `grpc`, the connection's handle to
    /// the shared RPC handler.
    pub fn new(grpc: Grpc) -> (r: PendingDispatcher<Grpc>)
        ensures
            r.held() == Some(grpc),
    {
        PendingDispatcher { grpc: Some(grpc) }
    }

    /// Whether the dispatcher has been built already.
    pub fn is_built(&self) -> (r: bool)
        ensures
            r == (self.held() is None),
    {
        self.grpc.is_none()
    }

    /// Builds the dispatcher from the connection's web handler and the RPC
    /// handle held. This can happen once only.
    pub fn complete<Web>(&mut self, web: Web) -> (r: HybridService<Web, Grpc>)
        requires
            old(self).held() is Some,
        ensures
            r.web == web,
            r.grpc == old(self).held()->Some_0,
            final(self).held() is None,
    {
        let grpc = self.grpc.take().unwrap();
        HybridService { web, grpc }
    }
}

/// What one poll of the factory's computation of a web handler reported,
/// turned into what the connection acceptor reports: pending while it is
/// pending, its error unchanged, and on success the built dispatcher.
pub fn on_web_handler<Web, WebError, Grpc>(
    pending: &mut PendingDispatcher<Grpc>,
    p: Progress<Result<Web, WebError>>,
) -> (r: Progress<Result<HybridService<Web, Grpc>, WebError>>)
    requires
        old(pending).held() is Some,
    ensures
        match p {
            Progress::Pending => {
                &&& r is Pending
                &&& final(pending).held() == old(pending).held()
            },
            Progress::Ready(Err(e)) => {
                &&& r == Progress::<Result<HybridService<Web, Grpc>, WebError>>::Ready(
                    Err(e),
                )
                &&& final(pending).held() == old(pending).held()
            },
            Progress::Ready(Ok(w)) => {
                &&& r matches Progress::Ready(Ok(s))
                &&& s.web == w
                &&& s.grpc == old(pending).held()->Some_0
                &&& final(pending).held() is None
            },
        },
{
    match p {
        Progress::Pending => Progress::Pending,
        Progress::Ready(Err(e)) => Progress::Ready(Err(e)),
        Progress::Ready(Ok(w)) => Progress::Ready(Ok(pending.complete(w))),
    }
}

} // verus!
