use librew::decimal::append_decimal;
use librew::drivers::gpio;
use librew::drivers::spi;
use librew::error::Error;
use librew::error::ErrorKind;

#[test]
fn new_has_no_source() {
    let err = Error::new(ErrorKind::SensorFault, "no sensor");
    assert_eq!(err.kind(), ErrorKind::SensorFault);
    assert_eq!(err.message(), "no sensor");
    assert!(err.source().is_none());
}

#[test]
fn new_with_source_keeps_the_chain() {
    let root = Error::new(ErrorKind::TransportFailure, "root");
    let mid = Error::new_with_source(ErrorKind::TransportFailure, "mid", root);
    let top = Error::new_with_source(ErrorKind::ValidationFailure { value: 9 }, "top", mid);
    assert_eq!(top.kind(), ErrorKind::ValidationFailure { value: 9 });
    assert_eq!(top.message(), "top");
    let mid = top.source().unwrap();
    assert_eq!(mid.message(), "mid");
    let root = mid.source().unwrap();
    assert_eq!(root.message(), "root");
    assert!(root.source().is_none());
}

#[test]
fn kinds_are_distinct() {
    assert_ne!(ErrorKind::TransportFailure, ErrorKind::SensorFault);
    assert_ne!(
        ErrorKind::TransportFailure,
        ErrorKind::ValidationFailure { value: 0 }
    );
    assert_ne!(
        ErrorKind::SensorFault,
        ErrorKind::ValidationFailure { value: 0 }
    );
    assert_ne!(
        ErrorKind::ValidationFailure { value: 1 },
        ErrorKind::ValidationFailure { value: 0 }
    );
}

#[test]
fn empty_message() {
    let err = Error::new(ErrorKind::TransportFailure, "");
    assert_eq!(err.message(), "");
}

#[test]
fn decimal_of_every_number() {
    for n in 0..=u16::MAX {
        let mut text = String::from("n=");
        append_decimal(&mut text, n as u32);
        assert_eq!(text, format!("n={}", n));
    }
}

#[test]
fn decimal_exact_texts() {
    for (n, expected) in [
        (0, "0"),
        (9, "9"),
        (10, "10"),
        (109, "109"),
        (1000, "1000"),
        (65535, "65535"),
        (65536, "65536"),
        (4294967295, "4294967295"),
    ] {
        let mut text = String::new();
        append_decimal(&mut text, n);
        assert_eq!(text, expected);
    }
}

#[test]
fn bus_unavailable() {
    let err = spi::unavailable(Error::new(ErrorKind::TransportFailure, "no device"));
    assert_eq!(err.kind(), ErrorKind::TransportFailure);
    assert_eq!(err.message(), "Failed to acquire rppal SPI instance.");
    assert_eq!(err.source().unwrap().message(), "no device");
}

#[test]
fn gpio_unavailable() {
    let err = gpio::unavailable(Error::new(ErrorKind::TransportFailure, "denied"));
    assert_eq!(err.kind(), ErrorKind::TransportFailure);
    assert_eq!(err.message(), "Failed to acquire rppal Gpio instance.");
    assert_eq!(err.source().unwrap().message(), "denied");
}

#[test]
fn pin_unavailable() {
    let err = gpio::pin_unavailable(23, Error::new(ErrorKind::TransportFailure, "busy"));
    assert_eq!(err.kind(), ErrorKind::TransportFailure);
    assert_eq!(err.message(), "Failed to acquire pin 23");
    assert_eq!(err.source().unwrap().message(), "busy");
    let err = gpio::pin_unavailable(255, Error::new(ErrorKind::TransportFailure, "busy"));
    assert_eq!(err.message(), "Failed to acquire pin 255");
    let err = gpio::pin_unavailable(0, Error::new(ErrorKind::TransportFailure, "busy"));
    assert_eq!(err.message(), "Failed to acquire pin 0");
}
