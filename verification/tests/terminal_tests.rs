use sicth::terminal::popup_height;

#[test]
fn popup_height_50_rows_40pct() {
    assert_eq!(popup_height(50, 40), 20);
}

#[test]
fn popup_height_10_rows_clamped_to_6() {
    assert_eq!(popup_height(10, 40), 6);
}

#[test]
fn popup_height_5_rows_passthrough() {
    assert_eq!(popup_height(5, 40), 5);
}

#[test]
fn popup_height_8_rows_returns_6() {
    assert_eq!(popup_height(8, 40), 6);
}

#[test]
fn popup_height_50_rows_70pct() {
    assert_eq!(popup_height(50, 70), 35);
}

#[test]
fn popup_height_edges() {
    assert_eq!(popup_height(0, 40), 1);
    assert_eq!(popup_height(100, 5), 10);
    assert_eq!(popup_height(100, 100), 90);
    assert_eq!(popup_height(9, 90), 7);
}
