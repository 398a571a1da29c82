use gdax_rs::currencies::GetCurrencies;
use gdax_rs::products::{GetProductOrderBook, GetProductTicker, GetProducts, GetTrades, Level};
use gdax_rs::rest_client::{prepare_request, EndPointRequest, Method, RestRequest};
use gdax_rs::time::GetTime;
use gdax_rs::url::Route;
use gdax_rs::{Cursor, Pagination};

#[test]
fn currencies_test_create_request() {
    let result = GetCurrencies::new().create_request();

    let expected = RestRequest {
        http_method: Method::Get,
        route: Route::new().add_segment(&"currencies"),
        body: String::new(),
        pagination: None,
    };

    assert_eq!(result, expected);
}

#[test]
fn get_product_order_book_test_create_request() {
    let request_handler = GetProductOrderBook::new(String::from("BTC-USD"), Level::Top50);
    let result = request_handler.create_request();
    let expected = RestRequest {
        http_method: Method::Get,
        route: Route::new()
            .add_segment(&"products")
            .add_segment(&"BTC-USD")
            .add_segment(&"book")
            .add_attribute_value(&"level", &2),
        body: String::new(),
        pagination: None,
    };
    assert_eq!(result, expected);
}

#[test]
fn get_product_ticker_test_create_request() {
    let result = GetProductTicker::new(String::from("BTC-USD")).create_request();
    let expected = RestRequest {
        http_method: Method::Get,
        route: Route::new()
            .add_segment(&"products")
            .add_segment(&"BTC-USD")
            .add_segment(&"ticker"),
        body: String::new(),
        pagination: None,
    };

    assert_eq!(result, expected);
}

#[test]
fn test_request() {
    let handler = GetProducts::new();

    let expected = RestRequest {
        http_method: Method::Get,
        route: Route::new().add_segment(&"products"),
        body: String::new(),
        pagination: None,
    };

    assert_eq!(handler.create_request(), expected);
    assert_eq!(handler.create_request().route.to_string(), "/products");
}

#[test]
fn get_trades_test_create_request() {
    let result = GetTrades::new(String::from("BTC-USD"), None).create_request();
    let expected = RestRequest {
        http_method: Method::Get,
        route: Route::new()
            .add_segment(&"products")
            .add_segment(&"BTC-USD")
            .add_segment(&"trades"),
        body: String::new(),
        pagination: None,
    };

    assert_eq!(result, expected);
}

#[test]
fn time_test_create_request() {
    let result = GetTime::new().create_request();

    let expected = RestRequest {
        http_method: Method::Get,
        route: Route::new().add_segment(&"time"),
        body: String::new(),
        pagination: None,
    };

    assert_eq!(result, expected);
}

#[test]
fn trades_carry_their_page() {
    let page = Pagination {
        page: Cursor::After(73),
        limit: Some(100),
    };
    let result = GetTrades::new(String::from("ETH-EUR"), Some(page)).create_request();
    assert_eq!(result.pagination, Some(page));
    assert_eq!(result.route.to_string(), "/products/ETH-EUR/trades");
    assert_eq!(
        result.uri("https://api.gdax.com"),
        "https://api.gdax.com/products/ETH-EUR/trades?after=73&limit=100"
    );
}

#[test]
fn order_book_levels() {
    assert_eq!(Level::Best.number(), 1);
    assert_eq!(Level::Top50.number(), 2);
    assert_eq!(Level::Full.number(), 3);
    let best = GetProductOrderBook::new(String::from("BTC-USD"), Level::Best).create_request();
    assert_eq!(best.route.to_string(), "/products/BTC-USD/book?level=1");
    let full = GetProductOrderBook::new(String::from("BTC-USD"), Level::Full).create_request();
    assert_eq!(full.route.to_string(), "/products/BTC-USD/book?level=3");
}

#[test]
fn every_endpoint_is_a_get_without_body() {
    let requests = vec![
        GetTime::new().create_request(),
        GetCurrencies::new().create_request(),
        GetProducts::new().create_request(),
        GetProductTicker::new(String::from("BTC-USD")).create_request(),
        GetProductOrderBook::new(String::from("BTC-USD"), Level::Best).create_request(),
        GetTrades::new(String::from("BTC-USD"), None).create_request(),
    ];
    let paths = vec![
        "/time",
        "/currencies",
        "/products",
        "/products/BTC-USD/ticker",
        "/products/BTC-USD/book?level=1",
        "/products/BTC-USD/trades",
    ];
    for (request, path) in requests.iter().zip(paths) {
        assert_eq!(request.http_method, Method::Get);
        assert_eq!(request.body, "");
        assert_eq!(request.route.to_string(), path);
    }
}

#[test]
fn create_request_twice_gives_the_same_request() {
    let time = GetTime::new();
    assert_eq!(time.create_request(), time.create_request());
    let book = GetProductOrderBook::new(String::from("BTC-USD"), Level::Top50);
    assert_eq!(book.create_request(), book.create_request());
    let trades = GetTrades::new(
        String::from("BTC-USD"),
        Some(Pagination {
            page: Cursor::Before(9),
            limit: None,
        }),
    );
    assert_eq!(trades.create_request(), trades.create_request());
}

#[test]
fn product_ids_are_encoded_in_the_path() {
    let result = GetProductTicker::new(String::from("BTC/USD")).create_request();
    assert_eq!(result.route.to_string(), "/products/BTC%2FUSD/ticker");
}

#[test]
fn prepared_call_of_an_endpoint() {
    let endpoint = GetTrades::new(
        String::from("BTC-USD"),
        Some(Pagination {
            page: Cursor::After(100),
            limit: None,
        }),
    );
    let call = prepare_request("https://api.gdax.com", &endpoint).unwrap();
    assert_eq!(call.http_method, Method::Get);
    assert_eq!(
        call.target,
        "https://api.gdax.com/products/BTC-USD/trades?after=100"
    );
    assert_eq!(call.uri.path(), "/products/BTC-USD/trades");
    assert_eq!(call.uri.query(), Some("after=100"));
    assert_eq!(call.content_length, 0);
    assert!(prepare_request("://", &endpoint).is_err());
}

#[test]
fn transport_is_given_the_uri_of_the_page() {
    let after = GetTrades::new(
        String::from("BTC-USD"),
        Some(Pagination {
            page: Cursor::After(100),
            limit: None,
        }),
    );
    let call = prepare_request("http://h", &after).unwrap();
    assert_eq!(
        call.uri.to_string(),
        "http://h/products/BTC-USD/trades?after=100"
    );
    assert_eq!(call.uri, call.target.parse::<hyper::Uri>().unwrap());

    let before = GetTrades::new(
        String::from("BTC-USD"),
        Some(Pagination {
            page: Cursor::Before(50),
            limit: Some(20),
        }),
    );
    let call = prepare_request("http://h", &before).unwrap();
    assert_eq!(
        call.uri.to_string(),
        "http://h/products/BTC-USD/trades?before=50&limit=20"
    );
    assert_eq!(call.uri.path(), "/products/BTC-USD/trades");
    assert_eq!(call.uri.query(), Some("before=50&limit=20"));
}

#[test]
fn same_endpoint_gives_the_same_uri() {
    let endpoint = GetProductOrderBook::new(String::from("BTC-USD"), Level::Top50);
    let first = prepare_request("http://h", &endpoint).unwrap();
    let second = prepare_request("http://h", &endpoint).unwrap();
    assert_eq!(first.uri, second.uri);
    assert_eq!(first.uri.to_string(), "http://h/products/BTC-USD/book?level=2");
}
