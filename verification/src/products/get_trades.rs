//! The endpoint that lists the latest trades of a product, page by page.

use crate::rest_client::{
    get_request, EndPointRequest, Method, Pagination, RestRequest, RestRequestView,
};
use crate::url::{
    is_plain_segment, joined, joined_three, plain_route_renders_as_written, Route,
};
use vstd::prelude::*;

verus! {

/// The endpoint `GET /products/{id}/trades`.
#[derive(Clone, Debug)]
pub struct GetTrades {
    product_id: String,
    pagination: Option<Pagination>,
}

/// The side of the maker's order in a trade.
#[derive(Copy, Clone, Debug, PartialEq, Eq, Structural)]
pub enum Side {
    Sell,
    Buy,
}

impl GetTrades {
    /// The product whose trades the endpoint lists.
    pub closed spec fn product_id(&self) -> Seq<char> {
        self.product_id@
    }

    /// The page that the endpoint asks for; `None` for the first.
    pub closed spec fn pagination(&self) -> Option<Pagination> {
        self.pagination
    }

    pub fn new(product_id: String, pagination: Option<Pagination>) -> (r: GetTrades)
        ensures
            r.product_id() == product_id@,
            r.pagination() == pagination,
    {
        GetTrades { product_id, pagination }
    }
}

impl EndPointRequest for GetTrades {
    open spec fn request(&self) -> RestRequestView {
        get_request(
            seq!["products"@, self.product_id(), "trades"@],
            Seq::empty(),
            self.pagination(),
        )
    }

    fn create_request(&self) -> (r: RestRequest) {
        let r = RestRequest {
            http_method: Method::Get,
            route: Route::new().add_segment("products").add_segment(
                self.product_id.as_str(),
            ).add_segment("trades"),
            body: String::new(),
            pagination: self.pagination,
        };
        assert(r@.route.segments =~= self.request().route.segments);
        r
    }
}

/// The trades of a product whose identifier is plain are asked for with
/// `GET /products/{id}/trades`, without body and with the page that the
/// endpoint was made with.
pub proof fn trades_request_renders(endpoint: GetTrades)
    requires
        is_plain_segment(endpoint.product_id()),
    ensures
        endpoint.request().http_method == Method::Get,
        endpoint.request().route.render() == "/products/"@ + endpoint.product_id() + "/trades"@,
        endpoint.request().body.len() == 0,
        endpoint.request().pagination == endpoint.pagination(),
{
    reveal_strlit("products");
    reveal_strlit("trades");
    reveal_strlit("/products/");
    reveal_strlit("/trades");
    let id = endpoint.product_id();
    let segments = seq!["products"@, id, "trades"@];
    assert(is_plain_segment("products"@));
    assert(is_plain_segment("trades"@));
    plain_route_renders_as_written(segments);
    joined_three("products"@, id, "trades"@, seq!['/']);
    assert(seq!['/'] + joined(segments, seq!['/']) =~= "/products/"@ + id + "/trades"@);
}

} // verus!
