use vstd::prelude::*;

verus! {

/// What one poll of a handler, a response computation or a body reports:
/// a value, or not yet.
#[derive(Debug, PartialEq, Eq)]
pub enum Progress<T> {
    Ready(T),
    Pending,
}

/// The union of the web handler's and the RPC handler's error types. It
/// carries the original error unchanged, tagged with the branch it came from.
#[derive(Debug, PartialEq, Eq)]
pub enum HybridError<WebError, GrpcError> {
    Web(WebError),
    Grpc(GrpcError),
}

impl<WebError, GrpcError> HybridError<WebError, GrpcError> {
    /// Whether the error came from the web branch.
    pub fn is_web(&self) -> (r: bool)
        ensures
            r == (self is Web),
    {
        match self {
            HybridError::Web(_) => true,
            HybridError::Grpc(_) => false,
        }
    }
}

} // verus!
