use smart_brain_engine::excel_export::{ExcelExportEngine, MAX_REPORT_ROWS};
use smart_brain_engine::text::{push_decimal, push_decimal_2};

#[test]
fn header_row() {
    assert_eq!(
        ExcelExportEngine::report_headers(),
        vec!["Timestamp", "Symbol", "Open", "High", "Low", "Close", "Volume"]
    );
}

#[test]
fn row_count_is_capped() {
    assert_eq!(ExcelExportEngine::report_row_count(0), 0);
    assert_eq!(ExcelExportEngine::report_row_count(5_000), 5_000);
    assert_eq!(ExcelExportEngine::report_row_count(100_000), 100_000);
    assert_eq!(ExcelExportEngine::report_row_count(1_000_000), 1_000_000);
    assert_eq!(ExcelExportEngine::report_row_count(1_048_575), 1_048_575);
    assert_eq!(ExcelExportEngine::report_row_count(1_048_576), MAX_REPORT_ROWS);
    assert_eq!(ExcelExportEngine::report_row_count(usize::MAX), 1_048_575);
}

#[test]
fn timestamps_match_zero_padded_format() {
    for row in [1u32, 9, 10, 59, 60, 61, 599, 600, 3599, 5000, 100_000, 1_048_575] {
        let expected = format!("2026-08-03T10:{:02}:{:02}", row / 60, row % 60);
        assert_eq!(ExcelExportEngine::report_timestamp(row), expected);
    }
    assert_eq!(ExcelExportEngine::report_timestamp(1), "2026-08-03T10:00:01");
    assert_eq!(ExcelExportEngine::report_timestamp(100_000), "2026-08-03T10:1666:40");
}

#[test]
fn volumes() {
    assert_eq!(ExcelExportEngine::report_volume(1), 15_001);
    assert_eq!(ExcelExportEngine::report_volume(100_000), 115_000);
    assert_eq!(ExcelExportEngine::report_volume(1_048_575), 1_063_575);
}

#[test]
fn decimal_text() {
    let mut s = String::new();
    push_decimal(&mut s, 0);
    assert_eq!(s, "0");
    let mut t = String::from("n=");
    push_decimal(&mut t, 4_294_967_295);
    assert_eq!(t, "n=4294967295");
    let mut u = String::new();
    push_decimal_2(&mut u, 5);
    push_decimal_2(&mut u, 42);
    push_decimal_2(&mut u, 123);
    assert_eq!(u, "0542123");
}
