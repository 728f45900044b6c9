use bitwarden_pin::padded_decimal;
use bitwarden_pin::pin_candidates;

#[test]
fn padded_decimal_pads_with_zeros() {
    assert_eq!(padded_decimal(7, 4), "0007".to_string());
    assert_eq!(padded_decimal(1337, 4), "1337".to_string());
    assert_eq!(padded_decimal(0, 4), "0000".to_string());
    assert_eq!(padded_decimal(0, 0), "".to_string());
    assert_eq!(padded_decimal(123, 6), "000123".to_string());
}

#[test]
fn pin_candidates_ascend_zero_padded() {
    let pins = pin_candidates(1330, 1340, 4);
    let expected: Vec<String> = (1330..1340).map(|pin| format!("{pin:04}")).collect();
    assert_eq!(pins, expected);
}

#[test]
fn pin_candidates_cover_a_small_space() {
    let pins = pin_candidates(0, 100, 2);
    assert_eq!(pins.len(), 100);
    assert_eq!(pins[0], "00");
    assert_eq!(pins[9], "09");
    assert_eq!(pins[99], "99");
}

#[test]
fn pin_candidates_empty_range() {
    assert_eq!(pin_candidates(5, 5, 4), Vec::<String>::new());
}
