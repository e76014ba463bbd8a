use porter::address::{port_in_range, push_signed_decimal, socket_address};

#[test]
fn host_colon_port() {
    assert_eq!(socket_address("127.0.0.1", 18080), "127.0.0.1:18080");
    assert_eq!(socket_address("example.invalid", 80), "example.invalid:80");
    assert_eq!(socket_address("::1", 65535), "::1:65535");
}

#[test]
fn single_digit_and_zero() {
    assert_eq!(socket_address("h", 0), "h:0");
    assert_eq!(socket_address("h", 7), "h:7");
    assert_eq!(socket_address("h", 10), "h:10");
    assert_eq!(socket_address("", 1), ":1");
}

#[test]
fn out_of_range_ports_are_written_as_they_are() {
    assert_eq!(socket_address("h", 70000), "h:70000");
    assert_eq!(socket_address("h", -1), "h:-1");
    assert_eq!(socket_address("h", i32::MAX), "h:2147483647");
    assert_eq!(socket_address("h", i32::MIN), "h:-2147483648");
}

#[test]
fn agrees_with_std_formatting() {
    for port in [0, 1, 9, 10, 99, 100, 101, 1000, 18080, 65535, 65536, -5, -10, -99999] {
        assert_eq!(socket_address("host", port), format!("{}:{}", "host", port));
    }
}

#[test]
fn appends_to_what_is_there() {
    let mut text = String::from("id ");
    push_signed_decimal(&mut text, 42);
    push_signed_decimal(&mut text, -3);
    assert_eq!(text, "id 42-3");
}

#[test]
fn ports_from_1_to_65535_are_in_range() {
    assert!(port_in_range(1));
    assert!(port_in_range(18080));
    assert!(port_in_range(65535));
    assert!(!port_in_range(0));
    assert!(!port_in_range(-1));
    assert!(!port_in_range(65536));
    assert!(!port_in_range(i32::MIN));
    assert!(!port_in_range(i32::MAX));
}
