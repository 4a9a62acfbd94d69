//! The typestate demonstrations run end to end.

use reactive_service::http_request::HttpRequestBuilder;
use reactive_service::traffic_light::TrafficLight;

#[test]
fn traffic_light_cycles() {
    let light = TrafficLight::new();
    let light = light.to_green().to_yellow().to_red();
    let light = light.to_flashing();
    let _ = light.to_red();
    reactive_service::traffic_light::usage();
}

#[test]
fn repeated_header_name_replaces_the_value() {
    let builder = HttpRequestBuilder::new()
        .add_header("Authorization".to_owned(), "first".to_owned())
        .add_header("Accept".to_owned(), "text/plain".to_owned())
        .add_header("Authorization".to_owned(), "second".to_owned());
    assert_eq!(builder.header_count(), 2);
    assert_eq!(builder.header_at(0), ("Authorization".to_owned(), "second".to_owned()));
    assert_eq!(builder.header_at(1), ("Accept".to_owned(), "text/plain".to_owned()));
}

#[test]
fn payment_attempt_consumes_the_token() {
    let token = reactive_service::payment_processor::PaymentToken::new("test-token".to_owned());
    assert!(reactive_service::payment::pay_with_token(token).is_ok());
}

#[test]
fn request_builder_chains() {
    let _ = HttpRequestBuilder::new()
        .with_post_method()
        .with_content_type("text/plain".to_owned())
        .with_payload("Try to add a body to a post method".to_owned())
        .add_header("Authorization".to_owned(), "token".to_owned());
    let _ = HttpRequestBuilder::new()
        .add_header("Authorization".to_owned(), "token".to_owned())
        .with_get_method();
    reactive_service::http_request::test();
    reactive_service::factory::test();
}
