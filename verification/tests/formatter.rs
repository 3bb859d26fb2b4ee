use zeroclaw::formatter::PrecisionFormatter;

#[test]
fn default_precisions() {
    let f = PrecisionFormatter::new();
    assert_eq!(f.precision_for("BTCUSDT"), (2, 5));
    assert_eq!(f.precision_for("ethusdt"), (2, 4));
    assert_eq!(f.precision_for("BNBUSDT"), (2, 3));
    assert_eq!(f.precision_for("SOLUSDT"), (3, 2));
    assert_eq!(f.precision_for("xrpusdt"), (4, 1));
    assert_eq!(f.precision_for("DOGEUSDT"), (2, 3));
}

#[test]
fn set_precision_reads_back() {
    let mut f = PrecisionFormatter::default();
    f.set_precision("dogeusdt", 5, 0);
    assert_eq!(f.precision_for("DOGEUSDT"), (5, 0));
    f.set_precision("BTCUSDT", 1, 6);
    assert_eq!(f.precision_for("btcusdt"), (1, 6));
    assert_eq!(f.precision_for("ETHUSDT"), (2, 4));
}
