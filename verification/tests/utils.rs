use frontend::size::format_file_size;
use frontend::utils::{build_list_url, current_page, list_query_params, ListQueryParams, format_relative_time, format_time_short, is_near_bottom, leaves_viewport_unfilled, sort_href_query, total_pages};

#[test]
fn format_file_size_bytes() {
    assert_eq!(format_file_size(0), "0B");
    assert_eq!(format_file_size(512), "512B");
    assert_eq!(format_file_size(1023), "1023B");
}

#[test]
fn format_file_size_kilobytes() {
    assert_eq!(format_file_size(1024), "1.0K");
    assert_eq!(format_file_size(1536), "1.5K");
    assert_eq!(format_file_size(10240), "10.0K");
}

#[test]
fn format_file_size_megabytes() {
    assert_eq!(format_file_size(1_048_576), "1.0M");
    assert_eq!(format_file_size(5_242_880), "5.0M");
}

#[test]
fn format_file_size_gigabytes() {
    assert_eq!(format_file_size(1_073_741_824), "1.0G");
    assert_eq!(format_file_size(324_281_999_360_i64), "302G");
}

#[test]
fn format_time_short_iso_timestamp() {
    assert_eq!(format_time_short("2024-01-15T10:30:45Z"), "2024-01-15");
}

#[test]
fn format_time_short_date_only() {
    assert_eq!(format_time_short("2024-01-15"), "2024-01-15");
}

#[test]
fn format_time_short_empty() {
    assert_eq!(format_time_short(""), "");
}

#[test]
fn format_time_short_no_t_separator() {
    assert_eq!(format_time_short("just-a-string"), "just-a-string");
}

/// The float computation that the file size text follows.
fn float_file_size(bytes: i64) -> String {
    let units = ["B", "K", "M", "G"];
    let mut value = bytes as f64;
    let mut unit_idx = 0;
    while value >= 1024.0 && unit_idx < units.len() - 1 {
        value /= 1024.0;
        unit_idx += 1;
    }
    let suffix = units[unit_idx];
    if suffix == "B" || value >= 20.0 {
        format!("{:.0}{suffix}", value)
    } else {
        format!("{:.1}{suffix}", value)
    }
}

#[test]
fn format_file_size_agrees_with_float_formatting() {
    let mut samples: Vec<i64> = vec![
        i64::MIN, i64::MIN + 1, -9_007_199_254_740_993, -1025, -1024, -1, 0, 1, 19, 20, 1023,
        1024, 1025, 1075, 1126, 1177, 1280, 1331, 20479, 20480, 20991, 20992, 20993, 21504,
        21990, 22016, 1_048_575, 1_048_576, 1_073_741_823, 1_073_741_824, 9_007_199_254_740_991,
        9_007_199_254_740_992, 9_007_199_254_740_993, 9_007_199_254_740_995,
        18_014_398_509_481_987, i64::MAX - 1, i64::MAX,
    ];
    for k in 0..4u32 {
        let d = 1024i64.pow(k);
        for t in 0..400i64 {
            samples.push(t * d / 20);
            samples.push(t * d / 20 + 1);
            samples.push((t * d) / 20 + d / 40);
        }
    }
    let mut x: u64 = 0x9E37_79B9_7F4A_7C15;
    for _ in 0..20000 {
        x ^= x << 13;
        x ^= x >> 7;
        x ^= x << 17;
        let shift = (x % 63) as u32;
        samples.push((x >> shift) as i64);
    }
    for b in samples {
        assert_eq!(format_file_size(b), float_file_size(b), "bytes = {b}");
    }
}

#[test]
fn relative_time_units() {
    assert_eq!(format_relative_time("2024-01-15", None), "2024-01-15");
    assert_eq!(format_relative_time("x", Some(-5)), "just now");
    assert_eq!(format_relative_time("x", Some(0)), "0 seconds ago");
    assert_eq!(format_relative_time("x", Some(1)), "1 second ago");
    assert_eq!(format_relative_time("x", Some(59)), "59 seconds ago");
    assert_eq!(format_relative_time("x", Some(60)), "1 minute ago");
    assert_eq!(format_relative_time("x", Some(7200)), "2 hours ago");
    assert_eq!(format_relative_time("x", Some(86400)), "1 day ago");
    assert_eq!(format_relative_time("x", Some(2_592_000)), "1 month ago");
    assert_eq!(format_relative_time("x", Some(31_536_000 * 3)), "3 years ago");
}

#[test]
fn list_url_parts() {
    assert_eq!(build_list_url("/posts", "", 0, 42), "/posts?limit=42");
    assert_eq!(build_list_url("/posts", "", 84, 42), "/posts?offset=84&limit=42");
    assert_eq!(
        build_list_url("/tags", "sort:name a&b", 10, 50),
        "/tags?query=sort%3Aname%20a%26b&offset=10&limit=50"
    );
    assert_eq!(build_list_url("/users", "é~*'()!", -3, 30), "/users?query=%C3%A9~*'()!&limit=30");
}

#[test]
fn sort_header_toggles() {
    assert_eq!(sort_href_query("sort:name", "sort:name"), "-sort:name");
    assert_eq!(sort_href_query("-sort:name", "sort:name"), "sort:name");
    assert_eq!(sort_href_query("cat", "sort:name"), "sort:name");
}

#[test]
fn page_numbers() {
    assert_eq!(total_pages(0, 50), 0);
    assert_eq!(total_pages(1, 50), 1);
    assert_eq!(total_pages(101, 50), 3);
    assert_eq!(total_pages(10, 0), 0);
    assert_eq!(current_page(100, 50), 3);
    assert_eq!(current_page(0, 0), 1);
}

#[test]
fn sort_toggle_twice_law() {
    let first = sort_href_query("sort:date", "sort:date");
    assert_eq!(first, "-sort:date");
    assert_eq!(sort_href_query(&first, "sort:date"), "sort:date");
}

#[test]
fn page_within_count_law() {
    for total in 1..60i64 {
        for limit in 1..12i64 {
            for offset in 0..total {
                let page = current_page(offset, limit);
                assert!(1 <= page && page <= total_pages(total, limit));
            }
        }
    }
    assert_eq!(total_pages(-5, 10), 0);
    assert_eq!(current_page(-15, 10), 0);
}

#[test]
fn scroll_thresholds() {
    assert!(is_near_bottom(1000, 1500, 300));
    assert!(!is_near_bottom(0, 1500, 300));
    assert!(!is_near_bottom(900, 1500, 300));
    assert!(is_near_bottom(901, 1500, 300));
    assert!(leaves_viewport_unfilled(1000, 700));
    assert!(!leaves_viewport_unfilled(1001, 700));
}

#[test]
fn list_query_parameters() {
    let p = list_query_params(Some("cat"), Some("84"), Some("21"), 42);
    assert_eq!(p, ListQueryParams { query: "cat".to_string(), offset: 84, limit: 21 });
    let p = list_query_params(None, None, None, 42);
    assert_eq!(p, ListQueryParams { query: String::new(), offset: 0, limit: 42 });
    let p = list_query_params(Some(""), Some("x"), Some("1.5"), 50);
    assert_eq!(p, ListQueryParams { query: String::new(), offset: 0, limit: 50 });
    let p = list_query_params(None, Some("-10"), Some("+7"), 50);
    assert_eq!((p.offset, p.limit), (-10, 7));
}
