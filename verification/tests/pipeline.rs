use agos::pipeline::now_iso8601;

#[test]
fn test_now_iso8601_format() {
    let ts = now_iso8601();
    // Basic format check: YYYY-MM-DDTHH:MM:SSZ
    assert_eq!(ts.len(), 20, "Expected ISO 8601 length 20, got: {ts}");
    assert!(ts.ends_with('Z'), "Expected Z suffix, got: {ts}");
    assert_eq!(&ts[4..5], "-", "Expected - at position 4");
    assert_eq!(&ts[7..8], "-", "Expected - at position 7");
    assert_eq!(&ts[10..11], "T", "Expected T at position 10");
    assert_eq!(&ts[13..14], ":", "Expected : at position 13");
    assert_eq!(&ts[16..17], ":", "Expected : at position 16");
    // Verify year is plausible (2026 or later)
    let year: i32 = ts[0..4].parse().unwrap();
    assert!(year >= 2026, "Year should be >= 2026, got {year}");
}
