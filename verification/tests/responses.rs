use gdax_rs::error::RestError;
use gdax_rs::rest_client::accept_response;

#[test]
fn success_hands_the_body_on() {
    let body = b"{\"value\": 1}".to_vec();
    assert_eq!(accept_response(200, body.clone()), Ok(body.clone()));
    assert_eq!(accept_response(204, Vec::new()), Ok(Vec::new()));
    assert_eq!(accept_response(299, body.clone()), Ok(body));
}

#[test]
fn other_statuses_are_transport_errors() {
    assert_eq!(
        accept_response(404, b"{\"message\":\"NotFound\"}".to_vec()),
        Err(RestError::TransportError(String::from("unexpected status 404")))
    );
    assert_eq!(
        accept_response(199, Vec::new()),
        Err(RestError::TransportError(String::from("unexpected status 199")))
    );
    assert_eq!(
        accept_response(300, Vec::new()),
        Err(RestError::TransportError(String::from("unexpected status 300")))
    );
    assert_eq!(
        accept_response(500, Vec::new()),
        Err(RestError::TransportError(String::from("unexpected status 500")))
    );
}
