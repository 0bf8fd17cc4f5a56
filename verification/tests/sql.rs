use belugasnooze::sql::{db_directory, ModelTimezone};

#[test]
fn sql_db_directory_plain_name() {
    assert_eq!(db_directory("testing_file.db"), Some(String::new()));
}

#[test]
fn sql_db_directory_nested_name() {
    let path = "/ramdrive/test_db_files/";
    let name = format!("{path}/testing_file.db");
    assert_eq!(db_directory(&name), Some(String::from("/ramdrive/test_db_files//")));
}

#[test]
fn sql_db_directory_invalid_name() {
    assert_eq!(db_directory("testing_file.sql"), None);
    assert_eq!(db_directory("db"), None);
    assert_eq!(db_directory(""), None);
}

#[test]
fn sql_db_directory_is_concat_of_slash_pieces() {
    for name in ["a/b/c.db", "/x.db", ".db", "dir/.db", "a.db/b.db"] {
        let expected: String = name.split_inclusive('/').filter(|f| !f.ends_with(".db")).collect();
        assert_eq!(db_directory(name), Some(expected), "input {:?}", name);
    }
}

#[test]
fn sql_timezone_offset_validity() {
    let mut tz = ModelTimezone {
        timezone_id: 1,
        zone_name: String::from("America/New_York"),
        offset_hour: -5,
        offset_minute: 0,
        offset_second: 0,
    };
    assert!(tz.has_valid_offset());
    assert_eq!(tz.utc_offset().as_hms(), (-5, 0, 0));
    tz.offset_hour = 26;
    assert!(!tz.has_valid_offset());
    tz.offset_hour = 25;
    tz.offset_minute = -60;
    assert!(!tz.has_valid_offset());
}

#[test]
fn sql_timezone_for_known_zone() {
    // 2024-01-15 12:00:00 UTC, winter in both zones.
    let now: i64 = 1_705_320_000;
    let ny = ModelTimezone::for_zone(String::from("America/New_York"), now).unwrap();
    assert_eq!(ny.zone_name, "America/New_York");
    assert_eq!(ny.timezone_id, 1);
    assert_eq!((ny.offset_hour, ny.offset_minute, ny.offset_second), (-5, 0, 0));
    let berlin = ModelTimezone::for_zone(String::from("Europe/Berlin"), now).unwrap();
    assert_eq!((berlin.offset_hour, berlin.offset_minute, berlin.offset_second), (1, 0, 0));
    // Summer time: 2024-07-15 12:00:00 UTC.
    let summer: i64 = 1_721_044_800;
    let berlin = ModelTimezone::for_zone(String::from("Europe/Berlin"), summer).unwrap();
    assert_eq!(berlin.offset_hour, 2);
}

#[test]
fn sql_timezone_for_unknown_zone() {
    assert!(ModelTimezone::for_zone(String::from("Mars/Olympus_Mons"), 1_705_320_000).is_none());
}

#[test]
fn sql_timezone_for_zone_at_range_ends() {
    let low = ModelTimezone::for_zone(String::from("Asia/Kolkata"), -377_705_116_800).unwrap();
    assert!(low.has_valid_offset());
    let high = ModelTimezone::for_zone(String::from("Asia/Kolkata"), 253_402_300_799).unwrap();
    assert_eq!((high.offset_hour, high.offset_minute, high.offset_second), (5, 30, 0));
}

#[test]
fn sql_timezone_offset_seconds() {
    let tz = |h: i8, m: i8, s: i8| ModelTimezone {
        timezone_id: 1,
        zone_name: String::new(),
        offset_hour: h,
        offset_minute: m,
        offset_second: s,
    };
    assert_eq!(tz(-5, 0, 0).offset_seconds(), -18000);
    assert_eq!(tz(5, 30, 0).offset_seconds(), 19800);
    assert_eq!(tz(-3, 30, 0).offset_seconds(), -12600);
    assert_eq!(tz(0, -30, 15).offset_seconds(), -1815);
}
