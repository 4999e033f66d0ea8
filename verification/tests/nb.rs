use embedded_hal::nb::{ready, Error};

#[test]
fn ready_hands_on_a_value() {
    let attempt: Result<u8, Error<&str>> = Ok(7);
    assert_eq!(ready(attempt), Some(Ok(7)));
}

#[test]
fn ready_hands_on_a_fatal_error() {
    let attempt: Result<u8, Error<&str>> = Err(Error::Other("overrun"));
    assert_eq!(ready(attempt), Some(Err("overrun")));
}

#[test]
fn ready_has_nothing_while_blocked() {
    let attempt: Result<u8, Error<&str>> = Err(Error::WouldBlock);
    assert_eq!(ready(attempt), None);
}

#[test]
fn ready_keeps_a_unit_value() {
    let attempt: Result<(), Error<u32>> = Ok(());
    assert_eq!(ready(attempt), Some(Ok(())));
}
