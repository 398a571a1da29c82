//! The endpoint that asks for the server's time.

use crate::rest_client::{get_request, EndPointRequest, Method, RestRequest, RestRequestView};
use crate::url::{is_plain_segment, joined, plain_route_renders_as_written, Route};
use vstd::prelude::*;

verus! {

/// The endpoint `GET /time`.
#[derive(Copy, Clone, Debug, Default)]
pub struct GetTime;

impl GetTime {
    pub fn new() -> GetTime {
        GetTime
    }
}

impl EndPointRequest for GetTime {
    open spec fn request(&self) -> RestRequestView {
        get_request(seq!["time"@], Seq::empty(), None)
    }

    fn create_request(&self) -> (r: RestRequest) {
        let r = RestRequest {
            http_method: Method::Get,
            route: Route::new().add_segment("time"),
            body: String::new(),
            pagination: None,
        };
        assert(r@.route.segments =~= self.request().route.segments);
        r
    }
}

/// The server's time is asked for with `GET /time`, without body or page.
pub proof fn time_request_renders(endpoint: GetTime)
    ensures
        endpoint.request().http_method == Method::Get,
        endpoint.request().route.render() == "/time"@,
        endpoint.request().body.len() == 0,
        endpoint.request().pagination is None,
{
    reveal_strlit("time");
    reveal_strlit("/time");
    let segments = seq!["time"@];
    assert(is_plain_segment("time"@));
    plain_route_renders_as_written(segments);
    assert(seq!['/'] + joined(segments, seq!['/']) =~= "/time"@);
}

} // verus!
