use solfege::harmony::Dyad;

#[test]
fn dyad_order() {
    let dyad_1 = Dyad::from((1i64, 2));
    let dyad_2 = Dyad::from((2i64, 1));

    assert_eq!(dyad_1.low, 1);
    assert_eq!(dyad_1.high, 2);
    assert_eq!(dyad_2.low, 1);
    assert_eq!(dyad_2.high, 2);
}

#[test]
fn dyad_equality() {
    assert_eq!(Dyad::from((1i64, 2)), Dyad::from((2i64, 1)));
}
