use extron_scaler::{valid_baud, valid_resolution};

#[test]
fn supported_bauds_are_accepted() {
    let rates = vec![
        "300", "600", "1200", "2400", "4800", "9600", "19200", "38400", "57600", "115200",
    ];
    for r in rates {
        assert_eq!(valid_baud(r), Ok(()));
    }
}

#[test]
fn unsupported_baud_is_refused() {
    assert_eq!(valid_baud("9601"), Err("Unsupported baud rate".to_string()));
    assert_eq!(valid_baud("0"), Err("Unsupported baud rate".to_string()));
}

#[test]
fn non_numeric_baud_is_refused() {
    assert_eq!(valid_baud("fast"), Err("Invalid baud rate specified".to_string()));
    assert_eq!(valid_baud(""), Err("Invalid baud rate specified".to_string()));
    assert_eq!(valid_baud("96 00"), Err("Invalid baud rate specified".to_string()));
}

#[test]
fn positive_resolution_is_accepted() {
    assert_eq!(valid_resolution("1"), Ok(()));
    assert_eq!(valid_resolution("1080"), Ok(()));
    assert_eq!(valid_resolution("4294967295"), Ok(()));
}

#[test]
fn zero_resolution_is_refused() {
    assert_eq!(valid_resolution("0"), Err("Resolution can't be zero".to_string()));
}

#[test]
fn non_numeric_resolution_is_refused() {
    assert_eq!(valid_resolution("wide"), Err("Invalid resolution specified".to_string()));
    assert_eq!(valid_resolution(""), Err("Invalid resolution specified".to_string()));
    assert_eq!(valid_resolution("4294967296"), Err("Invalid resolution specified".to_string()));
}
