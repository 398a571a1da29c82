//! The endpoint that asks for the last trade and the best bid and ask of
//! a product.

use crate::rest_client::{get_request, EndPointRequest, Method, RestRequest, RestRequestView};
use crate::url::{
    is_plain_segment, joined, joined_three, plain_route_renders_as_written, Route,
};
use vstd::prelude::*;

verus! {

/// The endpoint `GET /products/{id}/ticker`.
#[derive(Clone, Debug)]
pub struct GetProductTicker {
    product_id: String,
}

impl GetProductTicker {
    /// The product that the endpoint asks about.
    pub closed spec fn product_id(&self) -> Seq<char> {
        self.product_id@
    }

    pub fn new(product_id: String) -> (r: GetProductTicker)
        ensures
            r.product_id() == product_id@,
    {
        GetProductTicker { product_id }
    }
}

impl EndPointRequest for GetProductTicker {
    open spec fn request(&self) -> RestRequestView {
        get_request(seq!["products"@, self.product_id(), "ticker"@], Seq::empty(), None)
    }

    fn create_request(&self) -> (r: RestRequest) {
        let r = RestRequest {
            http_method: Method::Get,
            route: Route::new().add_segment("products").add_segment(
                self.product_id.as_str(),
            ).add_segment("ticker"),
            body: String::new(),
            pagination: None,
        };
        assert(r@.route.segments =~= self.request().route.segments);
        r
    }
}

/// The ticker of a product whose identifier is plain is asked for with
/// `GET /products/{id}/ticker`, without body or page.
pub proof fn ticker_request_renders(endpoint: GetProductTicker)
    requires
        is_plain_segment(endpoint.product_id()),
    ensures
        endpoint.request().http_method == Method::Get,
        endpoint.request().route.render() == "/products/"@ + endpoint.product_id() + "/ticker"@,
        endpoint.request().body.len() == 0,
        endpoint.request().pagination is None,
{
    reveal_strlit("products");
    reveal_strlit("ticker");
    reveal_strlit("/products/");
    reveal_strlit("/ticker");
    let id = endpoint.product_id();
    let segments = seq!["products"@, id, "ticker"@];
    assert(is_plain_segment("products"@));
    assert(is_plain_segment("ticker"@));
    plain_route_renders_as_written(segments);
    joined_three("products"@, id, "ticker"@, seq!['/']);
    assert(seq!['/'] + joined(segments, seq!['/']) =~= "/products/"@ + id + "/ticker"@);
}

} // verus!
