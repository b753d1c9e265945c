use miniplot::naming::{line_label, row_label};

#[test]
fn line_label_writes_the_number_in_decimal() {
    assert_eq!(line_label(0), "Line 0");
    assert_eq!(line_label(7), "Line 7");
    assert_eq!(line_label(10), "Line 10");
    assert_eq!(line_label(1905), "Line 1905");
}

#[test]
fn row_label_writes_the_number_in_decimal() {
    assert_eq!(row_label(0), "Row 0");
    assert_eq!(row_label(9), "Row 9");
    assert_eq!(row_label(100), "Row 100");
    assert_eq!(row_label(usize::MAX), format!("Row {}", usize::MAX));
}

#[test]
fn labels_agree_with_formatting() {
    let mut n: usize = 1;
    for _ in 0..64 {
        for k in [n - 1, n, n + 1, n.wrapping_mul(3), n.wrapping_mul(10) / 7] {
            assert_eq!(line_label(k), format!("Line {}", k));
            assert_eq!(row_label(k), format!("Row {}", k));
        }
        n = n.wrapping_mul(2);
        if n == 0 {
            break;
        }
    }
    for k in 0..2000usize {
        assert_eq!(row_label(k), format!("Row {}", k));
    }
}
