use nyancat::latency::{format_latency, u64_to_string};

#[test]
fn numbers_print_in_decimal() {
    assert_eq!(u64_to_string(0), "0");
    assert_eq!(u64_to_string(7), "7");
    assert_eq!(u64_to_string(10), "10");
    assert_eq!(u64_to_string(999), "999");
    assert_eq!(u64_to_string(1234567890), "1234567890");
    assert_eq!(u64_to_string(u64::MAX), "18446744073709551615");
}

#[test]
fn short_latencies_print_in_microseconds() {
    assert_eq!(format_latency(0, "200 OK"), "200 OK 0\u{3bc}s");
    assert_eq!(format_latency(999, "200 OK"), "200 OK 999\u{3bc}s");
}

#[test]
fn long_latencies_print_in_truncated_milliseconds() {
    assert_eq!(format_latency(1000, "200 OK"), "200 OK 1ms");
    assert_eq!(format_latency(1999, "200 OK"), "200 OK 1ms");
    assert_eq!(format_latency(2000, "404 Not Found"), "404 Not Found 2ms");
    assert_eq!(format_latency(1234567, "200 OK"), "200 OK 1234ms");
}
