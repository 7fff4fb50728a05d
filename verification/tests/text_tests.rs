use servicedash::text::push_decimal;
use servicedash::{fmt_clock, fmt_uptime};

#[test]
fn clock_formatting() {
    assert_eq!(fmt_clock(0), "00:00:00");
    assert_eq!(fmt_clock(59), "00:00:59");
    assert_eq!(fmt_clock(60), "00:01:00");
    assert_eq!(fmt_clock(3661), "01:01:01");
    assert_eq!(fmt_clock(86399), "23:59:59");
    assert_eq!(fmt_clock(359999), "99:59:59");
    assert_eq!(fmt_clock(360000), "100:00:00");
    assert_eq!(fmt_clock(u64::MAX), "5124095576030431:00:15");
}

#[test]
fn clock_fields_add_back_up() {
    for secs in [0u64, 7, 61, 3599, 3600, 45296, 1_000_000] {
        let s = fmt_clock(secs);
        let parts: Vec<u64> = s.split(':').map(|p| p.parse().unwrap()).collect();
        assert_eq!(parts.len(), 3);
        assert!(parts[1] < 60 && parts[2] < 60);
        assert_eq!(parts[0] * 3600 + parts[1] * 60 + parts[2], secs);
    }
}

#[test]
fn uptime_formatting() {
    assert_eq!(fmt_uptime(0), "00h 00m 00s");
    assert_eq!(fmt_uptime(3725), "01h 02m 05s");
    assert_eq!(fmt_uptime(400000), "111h 06m 40s");
}

#[test]
fn decimal_rendering() {
    for n in [0u64, 9, 10, 99, 100, 12345, u64::MAX] {
        let mut s = String::from("x");
        push_decimal(&mut s, n);
        assert_eq!(s, format!("x{n}"));
    }
}
