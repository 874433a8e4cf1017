use vstd::prelude::*;

verus! {

/// Which of the two handlers a request goes to.
#[derive(Clone, Copy, Debug, PartialEq, Eq, Structural)]
pub enum Route {
    Web,
    Rpc,
}

/// The bytes of the media type that marks RPC traffic: `application/grpc`
/// in ASCII.
pub open spec fn rpc_media_type() -> Seq<u8> {
    seq![
        97u8, 112, 112, 108, 105, 99, 97, 116, 105, 111, 110, 47,
        103, 114, 112, 99,
    ]
}

/// The routing rule: RPC exactly when the content type is present and equal,
/// byte for byte, to `application/grpc`; the web handler otherwise.
pub open spec fn route_of(content_type: Option<Seq<u8>>) -> Route {
    if content_type == Some(rpc_media_type()) {
        Route::Rpc
    } else {
        Route::Web
    }
}

/// Whether a header value equals `application/grpc`, byte for byte.
fn is_rpc_media_type(value: &[u8]) -> (r: bool)
    ensures
        r == (value@ == rpc_media_type()),
{
    let expected: [u8; 16] = [
        97u8, 112, 112, 108, 105, 99, 97, 116, 105, 111, 110, 47,
        103, 114, 112, 99,
    ];
    assert(expected@ == rpc_media_type());
    if value.len() != 16 {
        return false;
    }
    let mut i: usize = 0;
    while i < 16
        invariant
            value@.len() == 16,
            expected@ == rpc_media_type(),
            0 <= i <= 16,
            forall|j: int| 0 <= j < i ==> value@[j] == expected@[j],
        decreases 16 - i,
    {
        if value[i] != expected[i] {
            return false;
        }
        i = i + 1;
    }
    assert(value@ =~= rpc_media_type());
    true
}

/// Decides the handler for a request from its `content-type` header value
/// (`None` when the header is absent).
pub fn route(content_type: Option<&[u8]>) -> (r: Route)
    ensures
        r == route_of(
            match content_type {
                Some(v) => Some(v@),
                None => None,
            },
        ),
{
    match content_type {
        Some(v) => {
            if is_rpc_media_type(v) {
                Route::Rpc
            } else {
                Route::Web
            }
        },
        None => Route::Web,
    }
}

} // verus!
