//! Checks of the decimal renderer and the hello computations.
use blog_core::decimal::i64_to_string;
use blog_core::hello::{generate_message, hello_json, hello_message};

#[test]
fn decimal_rendering_exact_values() {
    assert_eq!(i64_to_string(0), "0");
    assert_eq!(i64_to_string(7), "7");
    assert_eq!(i64_to_string(42), "42");
    assert_eq!(i64_to_string(1000), "1000");
    assert_eq!(i64_to_string(-1), "-1");
    assert_eq!(i64_to_string(-9005), "-9005");
    assert_eq!(i64_to_string(i64::MAX), "9223372036854775807");
    assert_eq!(i64_to_string(i64::MIN), "-9223372036854775808");
}

#[test]
fn hello_message_names_the_location() {
    assert_eq!(
        hello_message(&Some(String::from("config.toml"))),
        "\nHello world! Using configuration from config.toml\n\n"
    );
    assert_eq!(
        hello_message(&None),
        "\nHello world! Using configuration from [nowhere]\n\n"
    );
}

#[test]
fn generated_message_is_the_greeting_or_the_refusal() {
    for _ in 0..32 {
        match generate_message() {
            Ok(m) => assert_eq!(m, "Hello, world!"),
            Err(e) => assert_eq!(e, "no message for you"),
        }
        match hello_json() {
            Ok(m) => assert_eq!(m, "Hello, world!"),
            Err(e) => {
                assert_eq!(e.status, 500);
                assert_eq!(e.message, "failed to generate message: no message for you");
            }
        }
    }
}
