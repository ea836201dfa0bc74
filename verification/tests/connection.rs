use message_relay::connection::{check_address, establish_connection};
use message_relay::message::connect_failure_notice;
use message_relay::settings::STORE_ADDRESS;

fn unreachable_store() -> redis::RedisError {
    redis::RedisError::from(std::io::Error::new(
        std::io::ErrorKind::ConnectionRefused,
        "connection refused",
    ))
}

#[test]
fn the_fixed_address_passes() {
    assert_eq!(STORE_ADDRESS, "redis://127.0.0.1:6379");
    let opened = check_address(STORE_ADDRESS);
    assert!(opened.is_ok());
    assert_eq!(
        opened.unwrap().get_connection_info().addr().to_string(),
        "127.0.0.1:6379"
    );
}

#[test]
fn check_address_keeps_the_address_it_was_given() {
    let client = check_address("redis://10.1.2.3:7000").unwrap();
    assert_eq!(client.get_connection_info().addr().to_string(), "10.1.2.3:7000");
}

#[test]
fn an_address_that_is_no_url_is_refused() {
    assert!(check_address("not an address").is_err());
    assert!(check_address("http://127.0.0.1:6379").is_err());
}

#[test]
fn a_store_that_was_reached_gives_the_handle() {
    let handle = establish_connection(check_address(STORE_ADDRESS), Ok(()));
    assert!(handle.is_ok());
    assert_eq!(
        handle.unwrap().get_connection_info().addr().to_string(),
        "127.0.0.1:6379"
    );
}

#[test]
fn a_store_out_of_reach_gives_a_connection_error() {
    let cause = unreachable_store();
    let text = cause.to_string();
    let handle = establish_connection(check_address(STORE_ADDRESS), Err(cause));
    match handle {
        Ok(_) => panic!("a handle to a store that was not reached"),
        Err(error) => {
            assert_eq!(error.cause.to_string(), text);
            let notice = connect_failure_notice(&error.cause.to_string());
            assert_eq!(notice, format!("Could not connect to database: {}", text));
        }
    }
}

#[test]
fn a_refused_address_gives_a_connection_error_with_its_own_cause() {
    let opened = check_address("nowhere");
    let text = match &opened {
        Ok(_) => panic!("a bare word passed"),
        Err(error) => error.to_string(),
    };
    match establish_connection(opened, Ok(())) {
        Ok(_) => panic!("the error was lost"),
        Err(error) => assert_eq!(error.cause.to_string(), text),
    }
}

#[test]
fn a_refused_address_counts_before_a_failed_attempt() {
    let opened = check_address("nowhere");
    let text = match &opened {
        Ok(_) => panic!("a bare word passed"),
        Err(error) => error.to_string(),
    };
    match establish_connection(opened, Err(unreachable_store())) {
        Ok(_) => panic!("the error was lost"),
        Err(error) => assert_eq!(error.cause.to_string(), text),
    }
}
