//! The endpoint that lists the products the exchange trades.

use crate::rest_client::{get_request, EndPointRequest, Method, RestRequest, RestRequestView};
use crate::url::{is_plain_segment, joined, plain_route_renders_as_written, Route};
use vstd::prelude::*;

verus! {

/// The endpoint `GET /products`.
#[derive(Copy, Clone, Debug, Default)]
pub struct GetProducts;

impl GetProducts {
    pub fn new() -> GetProducts {
        GetProducts
    }
}

impl EndPointRequest for GetProducts {
    open spec fn request(&self) -> RestRequestView {
        get_request(seq!["products"@], Seq::empty(), None)
    }

    fn create_request(&self) -> (r: RestRequest) {
        let r = RestRequest {
            http_method: Method::Get,
            route: Route::new().add_segment("products"),
            body: String::new(),
            pagination: None,
        };
        assert(r@.route.segments =~= self.request().route.segments);
        r
    }
}

/// The products are asked for with `GET /products`, without body or page.
pub proof fn products_request_renders(endpoint: GetProducts)
    ensures
        endpoint.request().http_method == Method::Get,
        endpoint.request().route.render() == "/products"@,
        endpoint.request().body.len() == 0,
        endpoint.request().pagination is None,
{
    reveal_strlit("products");
    reveal_strlit("/products");
    let segments = seq!["products"@];
    assert(is_plain_segment("products"@));
    plain_route_renders_as_written(segments);
    assert(seq!['/'] + joined(segments, seq!['/']) =~= "/products"@);
}

} // verus!
