use log::{RecorderSlot, SetLoggerError};

fn second_claim() -> SetLoggerError {
    let mut slot: RecorderSlot<u8> = RecorderSlot::new();
    assert!(slot.begin_install().is_ok());
    slot.begin_install().unwrap_err()
}

#[test]
fn test_error_trait() {
    let e = second_claim();
    assert_eq!(e.description(), "set_logger() called multiple times");
}

#[test]
fn the_error_has_its_message() {
    let e = second_claim();
    assert_eq!(
        e.to_string(),
        "attempted to set a logger after the logging system was already initialized"
    );
}
