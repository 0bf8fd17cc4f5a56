use belugasnooze::ws::connection_details::ConnectionDetails;

#[test]
fn connection_new_has_no_delay() {
    let details = ConnectionDetails::new();
    assert_eq!(details.count, 0);
    assert!(!details.is_connected());
    assert_eq!(details.reconnect_delay(), None);
}

#[test]
fn connection_short_delay_before_twenty_failures() {
    let mut details = ConnectionDetails::new();
    for _ in 0..19 {
        details.fail_connect();
    }
    assert_eq!(details.count, 19);
    assert_eq!(details.reconnect_delay(), Some(5));
}

#[test]
fn connection_long_delay_from_twenty_failures() {
    let mut details = ConnectionDetails::new();
    for _ in 0..20 {
        details.fail_connect();
    }
    assert_eq!(details.count, 20);
    assert_eq!(details.reconnect_delay(), Some(60));
    details.fail_connect();
    assert_eq!(details.reconnect_delay(), Some(60));
    assert!(!details.is_connected());
}

#[test]
fn connection_valid_connect_resets() {
    let mut details = ConnectionDetails::new();
    for _ in 0..25 {
        details.fail_connect();
    }
    details.valid_connect();
    assert_eq!(details.count, 1);
    assert!(details.is_connected());
    assert_eq!(details.reconnect_delay(), Some(5));
    details.fail_connect();
    assert_eq!(details.count, 2);
    assert!(!details.is_connected());
    assert_eq!(details.reconnect_delay(), Some(5));
}
