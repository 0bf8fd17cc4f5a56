use belugasnooze::sysinfo::SysInfo;
use belugasnooze::text::{parse_decimal, to_decimal, trim};

#[test]
fn sysinfo_ip_unreadable_is_na() {
    assert_eq!(SysInfo::get_ip(None), "N/A");
}

#[test]
fn sysinfo_ip_trimmed() {
    assert_eq!(SysInfo::get_ip(Some("127.0.0.1\n")), "127.0.0.1");
    assert_eq!(SysInfo::get_ip(Some("  192.168.1.20 \t\n")), "192.168.1.20");
}

#[test]
fn sysinfo_ip_too_short_is_na() {
    assert_eq!(SysInfo::get_ip(Some("")), "N/A");
    assert_eq!(SysInfo::get_ip(Some("x")), "N/A");
    assert_eq!(SysInfo::get_ip(Some("\n")), "N/A");
    // Two bytes of white space trim to nothing.
    assert_eq!(SysInfo::get_ip(Some(" \n")), "");
    // One character, but two bytes.
    assert_eq!(SysInfo::get_ip(Some("é")), "é");
}

#[test]
fn sysinfo_uptime_whole_seconds() {
    assert_eq!(SysInfo::get_uptime("12345.67 54321.00\n"), 12345);
    assert_eq!(SysInfo::get_uptime("61.00 2.00"), 61);
    assert_eq!(SysInfo::get_uptime("+12.5"), 12);
}

#[test]
fn sysinfo_uptime_unparsable_is_zero() {
    assert_eq!(SysInfo::get_uptime("abc.1"), 0);
    assert_eq!(SysInfo::get_uptime(".5"), 0);
    assert_eq!(SysInfo::get_uptime("-3.0"), 0);
    assert_eq!(SysInfo::get_uptime("99999999999999999999999.0"), 0);
}

#[test]
fn sysinfo_new_formats_app_uptime() {
    let info = SysInfo::new(
        String::from("America/New_York"),
        String::from("127.0.0.1"),
        120,
        Some(1),
        String::from("0.1.0"),
    );
    assert_eq!(info.time_zone, "America/New_York");
    assert_eq!(info.internal_ip, "127.0.0.1");
    assert_eq!(info.uptime, 120);
    assert_eq!(info.uptime_app, "1");
    assert_eq!(info.version, "0.1.0");
    let unknown = SysInfo::new(String::new(), String::new(), 0, None, String::new());
    assert_eq!(unknown.uptime_app, "N/A");
}

#[test]
fn text_decimal_notation() {
    assert_eq!(to_decimal(0), "0");
    assert_eq!(to_decimal(7), "7");
    assert_eq!(to_decimal(10), "10");
    assert_eq!(to_decimal(1234567890), "1234567890");
    assert_eq!(to_decimal(u64::MAX), u64::MAX.to_string());
}

#[test]
fn text_decimal_parses_back() {
    for n in [0u64, 9, 10, 99, 100, 65535, 4_294_967_296] {
        assert_eq!(parse_decimal(&to_decimal(n)), Some(n as usize));
    }
}

#[test]
fn text_parse_decimal_agrees_with_std() {
    for s in ["0", "42", "+42", "", "+", "-1", "4x", " 4", "007", "18446744073709551615", "18446744073709551616"] {
        assert_eq!(parse_decimal(s), s.parse::<usize>().ok(), "input {:?}", s);
    }
}

#[test]
fn text_trim_agrees_with_std() {
    for s in ["", "  ", "a", " a ", "\t a b \n", "\u{3000}x\u{85}", "\u{200B}y"] {
        assert_eq!(trim(s), s.trim(), "input {:?}", s);
    }
}
