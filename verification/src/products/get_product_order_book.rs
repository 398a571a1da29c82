//! The endpoint that asks for the open orders of a product, and the rule
//! that decodes the third field of a price level.

use crate::decimal::{decimal_digits, digit_char, to_decimal};
use crate::error::RestError;
use crate::rest_client::{get_request, EndPointRequest, Method, RestRequest, RestRequestView};
use crate::url::{
    attribute_text, attribute_texts, displayed_str_is_itself, is_plain_segment, joined,
    joined_three, plain_segments_are_unchanged, Route,
};
use vstd::prelude::*;
use vstd::string::*;

verus! {

/// The endpoint `GET /products/{id}/book?level={n}`.
#[derive(Clone, Debug)]
pub struct GetProductOrderBook {
    pub product_id: String,
    pub level: Level,
}

/// How much of the order book is asked for.
#[derive(Copy, Clone, Debug, PartialEq, Eq, Structural)]
pub enum Level {
    /// Only the best bid and ask, aggregated by price.
    Best,
    /// The top 50 bids and asks, aggregated by price.
    Top50,
    /// The full order book, order by order.
    Full,
}

impl Level {
    /// The number that the API knows the level by: 1, 2 or 3.
    pub open spec fn spec_number(self) -> nat {
        match self {
            Level::Best => 1,
            Level::Top50 => 2,
            Level::Full => 3,
        }
    }

    /// The number that the API knows the level by.
    pub fn number(self) -> (r: u64)
        ensures
            r == self.spec_number(),
    {
        match self {
            Level::Best => 1,
            Level::Top50 => 2,
            Level::Full => 3,
        }
    }
}

impl GetProductOrderBook {
    pub fn new(product_id: String, level: Level) -> (r: GetProductOrderBook)
        ensures
            r.product_id == product_id,
            r.level == level,
    {
        GetProductOrderBook { product_id, level }
    }
}

impl EndPointRequest for GetProductOrderBook {
    open spec fn request(&self) -> RestRequestView {
        get_request(
            seq!["products"@, self.product_id@, "book"@],
            seq![("level"@, decimal_digits(self.level.spec_number()))],
            None,
        )
    }

    fn create_request(&self) -> (r: RestRequest) {
        let digits = to_decimal(self.level.number());
        let level: &str = digits.as_str();
        let r = RestRequest {
            http_method: Method::Get,
            route: Route::new().add_segment("products").add_segment(
                self.product_id.as_str(),
            ).add_segment("book").add_attribute_value("level", level),
            body: String::new(),
            pagination: None,
        };
        proof {
            displayed_str_is_itself(level, r@.route.attributes.last().1);
        }
        assert(r@.route.segments =~= self.request().route.segments);
        assert(r@.route.attributes =~= self.request().route.attributes);
        r
    }
}

/// The open orders of a product: the bids and the asks, each a list of
/// price levels, best first.
#[derive(Clone, Debug, PartialEq)]
pub struct OrderBook<T> {
    pub sequence: usize,
    pub bids: Vec<T>,
    pub asks: Vec<T>,
}

/// The third field of a price level: the number of orders at that price
/// in an aggregated book, the order's identifier in a full one.
#[derive(Copy, Clone, Debug, PartialEq, Eq, Structural)]
pub enum OrderInfo {
    /// How many orders stand at the price.
    Count(i64),
    /// The UUID of the one order, as its 128 bits, first byte highest.
    Id(u128),
}

/// What `uuid::Uuid::parse_str` makes of a text: the UUID's 128 bits,
/// first byte highest, or `None` where the text is no UUID.
pub uninterp spec fn uuid_parsed(text: Seq<char>) -> Option<u128>;

/// Calls `uuid::Uuid::parse_str` and, where it succeeds, `as_u128` on the
/// result. The outcome depends on the text alone; the contract names it.
#[verifier::external_body]
fn parse_uuid(text: &str) -> (r: Option<u128>)
    ensures
        r == uuid_parsed(text@),
{
    match uuid::Uuid::parse_str(text) {
        Ok(id) => Some(id.as_u128()),
        Err(_) => None,
    }
}

/// The order info that a JSON value stands for, given the integer that
/// the value holds, if it holds one, and the UUID that it spells, if it is
/// a string that spells one. The integer is looked at first.
pub open spec fn order_info_of(count: Option<i64>, id: Option<u128>) -> Option<OrderInfo> {
    match count {
        Some(c) => Some(OrderInfo::Count(c)),
        None => match id {
            Some(u) => Some(OrderInfo::Id(u)),
            None => None,
        },
    }
}

/// The error of a value that is neither an integer nor a UUID.
pub open spec fn unexpected_value(e: RestError) -> bool {
    e is DecodeError && e.text() == "Unexpected value"@
}

/// Decides the order info from the integer and the UUID that were read off
/// a JSON value: the count where there is an integer, else the identifier
/// where there is a UUID, else a `DecodeError`.
pub fn select_order_info(count: Option<i64>, id: Option<u128>) -> (r: Result<OrderInfo, RestError>)
    ensures
        match order_info_of(count, id) {
            Some(info) => r == Ok::<OrderInfo, RestError>(info),
            None => r is Err && unexpected_value(r->Err_0),
        },
{
    if let Some(c) = count {
        return Ok(OrderInfo::Count(c));
    }
    if let Some(u) = id {
        return Ok(OrderInfo::Id(u));
    }
    Err(RestError::DecodeError(String::from_str("Unexpected value")))
}

/// The UUID that an optional text spells.
pub open spec fn spelled_uuid(text: Option<&str>) -> Option<u128> {
    match text {
        Some(s) => uuid_parsed(s@),
        None => None,
    }
}

/// Decodes the order info of a JSON value, given the integer that the
/// value holds, if it holds one, and its text, if it is a string: the
/// count for an integer, else the identifier for a string that spells a
/// UUID, else a `DecodeError`.
pub fn deserialize_orderinfo(count: Option<i64>, text: Option<&str>) -> (r: Result<
    OrderInfo,
    RestError,
>)
    ensures
        match order_info_of(count, spelled_uuid(text)) {
            Some(info) => r == Ok::<OrderInfo, RestError>(info),
            None => r is Err && unexpected_value(r->Err_0),
        },
{
    if count.is_some() {
        return select_order_info(count, None);
    }
    let id = match text {
        Some(s) => parse_uuid(s),
        None => None,
    };
    select_order_info(count, id)
}

/// The order book of a product whose identifier is plain is asked for
/// with `GET /products/{id}/book?level={n}`, where `n` is the level's
/// number, without body or page.
pub proof fn order_book_request_renders(endpoint: GetProductOrderBook)
    requires
        is_plain_segment(endpoint.product_id@),
    ensures
        endpoint.request().http_method == Method::Get,
        endpoint.request().route.render() == "/products/"@ + endpoint.product_id@
            + "/book?level="@ + seq![digit_char(endpoint.level.spec_number())],
        endpoint.request().body.len() == 0,
        endpoint.request().pagination is None,
{
    reveal_strlit("products");
    reveal_strlit("book");
    reveal_strlit("level");
    reveal_strlit("/products/");
    reveal_strlit("/book?level=");
    reveal_strlit("/book");
    reveal_strlit("?level=");
    let id = endpoint.product_id@;
    let digits = decimal_digits(endpoint.level.spec_number());
    let segments = seq!["products"@, id, "book"@];
    let attributes = seq![("level"@, digits)];
    assert(is_plain_segment("products"@));
    assert(is_plain_segment("book"@));
    plain_segments_are_unchanged(segments);
    joined_three("products"@, id, "book"@, seq!['/']);
    let route = endpoint.request().route;
    assert(route.path() =~= "/products/"@ + id + "/book"@) by {
        assert(joined(segments, seq!['/']) == "products"@ + seq!['/'] + id + seq!['/'] + "book"@);
    }
    assert(attribute_texts(attributes) =~= seq![attribute_text(("level"@, digits))]);
    assert(route.query() =~= "?level="@ + digits) by {
        assert(joined(attribute_texts(attributes), seq!['&']) == attribute_text(
            ("level"@, digits),
        ));
    }
    assert(digits =~= seq![digit_char(endpoint.level.spec_number())]);
    assert(route.render() =~= "/products/"@ + id + "/book?level="@ + digits) by {
        assert("/book?level="@ =~= "/book"@ + "?level="@);
    }
}

} // verus!
