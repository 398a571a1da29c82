//! The endpoint that lists the currencies the exchange knows.

use crate::rest_client::{get_request, EndPointRequest, Method, RestRequest, RestRequestView};
use crate::url::{is_plain_segment, joined, plain_route_renders_as_written, Route};
use vstd::prelude::*;

verus! {

/// The endpoint `GET /currencies`.
#[derive(Copy, Clone, Debug, Default)]
pub struct GetCurrencies;

impl GetCurrencies {
    pub fn new() -> GetCurrencies {
        GetCurrencies
    }
}

impl EndPointRequest for GetCurrencies {
    open spec fn request(&self) -> RestRequestView {
        get_request(seq!["currencies"@], Seq::empty(), None)
    }

    fn create_request(&self) -> (r: RestRequest) {
        let r = RestRequest {
            http_method: Method::Get,
            route: Route::new().add_segment("currencies"),
            body: String::new(),
            pagination: None,
        };
        assert(r@.route.segments =~= self.request().route.segments);
        r
    }
}

/// The currencies are asked for with `GET /currencies`, without body or
/// page.
pub proof fn currencies_request_renders(endpoint: GetCurrencies)
    ensures
        endpoint.request().http_method == Method::Get,
        endpoint.request().route.render() == "/currencies"@,
        endpoint.request().body.len() == 0,
        endpoint.request().pagination is None,
{
    reveal_strlit("currencies");
    reveal_strlit("/currencies");
    let segments = seq!["currencies"@];
    assert(is_plain_segment("currencies"@));
    plain_route_renders_as_written(segments);
    assert(seq!['/'] + joined(segments, seq!['/']) =~= "/currencies"@);
}

} // verus!
