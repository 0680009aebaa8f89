use chrono::Local;
use swifttype::replacement::formatter::{format_dynamic_content, format_with_time, LocalTime};

#[test]
fn test_format_static_content() {
    let result = format_dynamic_content("Hello, World!");
    assert_eq!(result, "Hello, World!");
}

#[test]
fn test_format_date() {
    let now = Local::now();

    let result = format_dynamic_content("{date:yyyyMMdd}");
    let expected = now.format("%Y%m%d").to_string();
    assert_eq!(result, expected);

    let result = format_dynamic_content("{date:yyyy/MM/dd}");
    let expected = now.format("%Y/%m/%d").to_string();
    assert_eq!(result, expected);
}

#[test]
fn test_format_time() {
    let template = "{date:HH:mm:ss}";
    let result = format_dynamic_content(template);
    assert!(result.len() == 8);
    assert!(result.contains(":"));
}

#[test]
fn test_multiple_replacements() {
    let template = "Date: {date:yyyy/MM/dd} Time: {date:HH:mm:ss}";
    let result = format_dynamic_content(template);
    assert!(result.starts_with("Date: "));
    assert!(result.contains(" Time: "));
}

#[test]
fn test_time_span_digit_shape() {
    // always eight characters shaped dd:dd:dd
    let result = format_dynamic_content("{date:HH:mm:ss}");
    let chars: Vec<char> = result.chars().collect();
    assert_eq!(chars.len(), 8);
    for (i, c) in chars.iter().enumerate() {
        if i == 2 || i == 5 {
            assert_eq!(*c, ':');
        } else {
            assert!(c.is_ascii_digit());
        }
    }
}

#[test]
fn test_format_with_fixed_time() {
    let t = LocalTime::new(2001, 2, 3, 4, 5, 6);
    assert_eq!(format_with_time("yyyy-MM-dd HH:mm:ss", &t), "2001-02-03 04:05:06");
    assert_eq!(format_with_time("yyyyMMdd", &t), "20010203");
    assert_eq!(format_with_time("yy", &t), "01");
    assert_eq!(format_with_time("{date:HH:mm:ss}", &t), "04:05:06");
    assert_eq!(format_with_time("Date: {date:yyyy/MM/dd} Time: {date:HH:mm:ss}", &t), "Date: 2001/02/03 Time: 04:05:06");
}

#[test]
fn test_unclosed_and_empty_spans_stay_literal() {
    let t = LocalTime::new(2001, 2, 3, 4, 5, 6);
    // no closing brace: the text is one bare pattern, so its tokens expand
    assert_eq!(format_with_time("{date:HH", &t), "{date:04");
    // an empty span is not a span; the text holds no tokens either
    assert_eq!(format_with_time("{date:}", &t), "{date:}");
    // literal text around a span stays untouched, token-lookalikes included
    assert_eq!(format_with_time("HH {date:mm}!", &t), "HH 05!");
}
