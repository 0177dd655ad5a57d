use vowel_server::handlers::health_check;
use vowel_server::handlers::hello_world;
use vowel_server::handlers::make_api_response;
use vowel_server::handlers::test_remove_vowels;
use vowel_server::handlers::VowelInput;

#[test]
fn health_answers_ok() {
    assert_eq!(health_check(), "OK");
}

#[test]
fn hello_reports_success_and_a_positive_timestamp() {
    let r = hello_world();
    assert_eq!(r.message, "Hello World from Rust Server");
    assert!(!r.message.is_empty());
    assert_eq!(r.status, "success");
    assert!(r.timestamp > 0);
}

#[test]
fn greeting_response_keeps_the_given_timestamp() {
    let r = make_api_response(42);
    assert_eq!(r.timestamp, 42);
    assert_eq!(r.message, "Hello World from Rust Server");
    assert_eq!(r.status, "success");
}

#[test]
fn vowel_endpoint_strips_hello_world() {
    let out = test_remove_vowels(VowelInput { input: String::from("Hello World") });
    assert_eq!(out.output, "Hll Wrld");
}

#[test]
fn vowel_endpoint_keeps_empty_input_empty() {
    let out = test_remove_vowels(VowelInput { input: String::new() });
    assert_eq!(out.output, "");
}
