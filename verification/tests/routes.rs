use gdax_rs::decimal::to_decimal;
use gdax_rs::url::Route;

#[test]
fn empty_route_renders_the_root() {
    assert_eq!(Route::new().to_string(), "/");
}

#[test]
fn segments_are_joined_by_slashes() {
    let route = Route::new()
        .add_segment("products")
        .add_segment("BTC-USD")
        .add_segment("ticker");
    assert_eq!(route.to_string(), "/products/BTC-USD/ticker");
}

#[test]
fn one_segment_has_no_trailing_slash() {
    assert_eq!(Route::new().add_segment("time").to_string(), "/time");
}

#[test]
fn first_attribute_opens_the_query() {
    let route = Route::new()
        .add_segment("products")
        .add_segment("BTC-USD")
        .add_segment("book")
        .add_attribute_value("level", &2);
    assert_eq!(route.to_string(), "/products/BTC-USD/book?level=2");
}

#[test]
fn attributes_keep_their_order() {
    let route = Route::new()
        .add_segment("a")
        .add_attribute_value("x", &1)
        .add_attribute_value("y", "two")
        .add_attribute_text("z", String::from("3"));
    assert_eq!(route.to_string(), "/a?x=1&y=two&z=3");
}

#[test]
fn attributes_without_segments() {
    let route = Route::new().add_attribute_value("level", &3);
    assert_eq!(route.to_string(), "/?level=3");
}

#[test]
fn segments_are_percent_encoded() {
    let route = Route::new().add_segment("a b/c?d").add_segment("100%");
    assert_eq!(route.to_string(), "/a%20b%2Fc%3Fd/100%25");
}

#[test]
fn escapes_are_upper_case_hexadecimal() {
    assert_eq!(Route::new().add_segment("\u{e9}").to_string(), "/%C3%A9");
    assert_eq!(Route::new().add_segment("\u{20ac}").to_string(), "/%E2%82%AC");
    assert_eq!(Route::new().add_segment("\n\u{7f}").to_string(), "/%0A%7F");
    assert_eq!(
        Route::new().add_segment(" \"#%/<>?`{}").to_string(),
        "/%20%22%23%25%2F%3C%3E%3F%60%7B%7D"
    );
}

#[test]
fn plain_characters_stand_for_themselves() {
    let plain = "!$&'()*+,-.0123456789:;=@ABCXYZ[\\]^_abcxyz|~";
    assert_eq!(
        Route::new().add_segment(plain).to_string(),
        format!("/{}", plain)
    );
    assert_eq!(Route::new().add_segment("").to_string(), "/");
}

#[test]
fn encoded_segments_are_taken_as_they_are() {
    let route = Route::new().add_encoded_segment(String::from("a%20b"));
    assert_eq!(route.to_string(), "/a%20b");
    assert_eq!(route, Route::new().add_segment("a b"));
}

#[test]
fn routes_compare_by_content() {
    let left = Route::new().add_segment("time").add_attribute_value("level", &2);
    let right = Route::new().add_segment("time").add_attribute_value("level", "2");
    assert_eq!(left, right);
    assert_ne!(left, Route::new().add_segment("time"));
    assert_ne!(
        Route::new().add_segment("a").add_segment("b"),
        Route::new().add_segment("b").add_segment("a")
    );
}

#[test]
fn building_leaves_the_source_untouched() {
    let base = Route::new().add_segment("products");
    let longer = base.clone().add_segment("BTC-USD");
    assert_eq!(base.to_string(), "/products");
    assert_eq!(longer.to_string(), "/products/BTC-USD");
}

#[test]
fn decimal_numerals() {
    assert_eq!(to_decimal(0), "0");
    assert_eq!(to_decimal(7), "7");
    assert_eq!(to_decimal(10), "10");
    assert_eq!(to_decimal(1234567890), "1234567890");
    assert_eq!(to_decimal(u64::MAX), "18446744073709551615");
}
