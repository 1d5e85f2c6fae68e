#[test]
fn volume_clamp_logic() {
    let vol_neg: f64 = (-10.0_f64).clamp(0.0, 100.0);
    assert_eq!(vol_neg, 0.0);

    let vol_high: f64 = (150.0_f64).clamp(0.0, 100.0);
    assert_eq!(vol_high, 100.0);

    let vol_ok: f64 = (75.0_f64).clamp(0.0, 100.0);
    assert_eq!(vol_ok, 75.0);
}
