use grater::time_format::format_time_duration;

#[test]
fn zero_seconds() {
    assert_eq!(format_time_duration(0), "00:00:00");
}

#[test]
fn sixty_one_seconds() {
    assert_eq!(format_time_duration(61), "00:01:01");
}

#[test]
fn one_hour_one_minute_one_second() {
    assert_eq!(format_time_duration(3661), "01:01:01");
}

#[test]
fn hours_not_clamped() {
    assert_eq!(format_time_duration(360000), "100:00:00");
}

#[test]
fn just_below_each_rollover() {
    assert_eq!(format_time_duration(59), "00:00:59");
    assert_eq!(format_time_duration(3599), "00:59:59");
    assert_eq!(format_time_duration(359999), "99:59:59");
}

#[test]
fn exact_rollovers() {
    assert_eq!(format_time_duration(60), "00:01:00");
    assert_eq!(format_time_duration(3600), "01:00:00");
    assert_eq!(format_time_duration(86400), "24:00:00");
}

#[test]
fn shape_over_many_values() {
    let samples: [u64; 7] = [0, 1, 59, 60, 3600, 86399, 123456789];
    for &total in samples.iter() {
        let s = format_time_duration(total);
        let bytes = s.as_bytes();
        let n = bytes.len();
        assert!(n >= 8);
        assert_eq!(bytes[n - 6], b':');
        assert_eq!(bytes[n - 3], b':');
        for (i, &b) in bytes.iter().enumerate() {
            if i != n - 6 && i != n - 3 {
                assert!(b.is_ascii_digit());
            }
        }
        let minutes: u64 = s[n - 5..n - 3].parse().unwrap();
        let seconds: u64 = s[n - 2..n].parse().unwrap();
        let hours: u64 = s[..n - 6].parse().unwrap();
        assert!(minutes < 60);
        assert!(seconds < 60);
        assert_eq!(hours, total / 3600);
        assert_eq!(minutes, (total / 60) % 60);
        assert_eq!(seconds, total % 60);
    }
}
