use bigdecimal::num_bigint::{BigInt, Sign};
use golemsp::amount::Amount;
use golemsp::payment::{InvoiceStatusNotes, PaymentSummary, StatValue, StatusNotes};

fn digits(digits: BigInt, scale: u8) -> Amount {
    let (sign, magnitude) = digits.to_bytes_be();
    Amount { negative: sign == Sign::Minus, magnitude, scale }
}

fn amount(unscaled: i128, scale: u8) -> Amount {
    digits(BigInt::from(unscaled), scale)
}

fn stat(units: i128, count: u64) -> StatValue {
    StatValue { total_amount: amount(units, 0), agreements_count: count }
}

fn scaled(unscaled: i128, scale: u8, count: u64) -> StatValue {
    StatValue { total_amount: amount(unscaled, scale), agreements_count: count }
}

#[test]
fn amounts_are_written_in_base_256() {
    assert_eq!(Amount::new(3, 0), Amount { negative: false, magnitude: vec![3], scale: 0 });
    assert_eq!(Amount::new(-1125, 2), Amount { negative: true, magnitude: vec![4, 101], scale: 2 });
    assert_eq!(Amount::new(0, 7), Amount { negative: false, magnitude: vec![0], scale: 7 });
    assert_eq!(Amount::new(256, 0), Amount { negative: false, magnitude: vec![1, 0], scale: 0 });
    assert_eq!(Amount::new(255, 255), Amount { negative: false, magnitude: vec![255], scale: 255 });
    let mut top = vec![0u8; 16];
    top[0] = 0x80;
    assert_eq!(Amount::new(i128::MIN, 1), Amount { negative: true, magnitude: top, scale: 1 });
    let mut most = vec![0xffu8; 16];
    most[0] = 0x7f;
    assert_eq!(Amount::new(i128::MAX, 0), Amount { negative: false, magnitude: most, scale: 0 });
}

#[test]
fn amounts_are_made_as_the_decimal_crate_writes_them() {
    let samples = [
        0,
        1,
        -1,
        255,
        256,
        -256,
        65535,
        65536,
        10i128.pow(27),
        -(10i128.pow(38)),
        i128::MAX,
        i128::MIN,
    ];
    for unscaled in samples {
        assert_eq!(Amount::new(unscaled, 18), amount(unscaled, 18));
    }
}

#[test]
fn payment_notes_subtract_stage_from_stage() {
    let notes = StatusNotes { requested: stat(10, 5), accepted: stat(7, 3), confirmed: stat(4, 2) };
    assert_eq!(notes.total_pending(), Some((amount(3, 0), 1)));
    assert_eq!(notes.unconfirmed(), Some((amount(3, 0), 2)));
}

#[test]
fn invoice_notes_take_accepted_as_it_stands_and_add_issued_to_received() {
    let notes = InvoiceStatusNotes {
        issued: stat(10, 5),
        received: stat(6, 2),
        accepted: stat(7, 3),
    };
    assert_eq!(notes.total_pending(), Some((amount(7, 0), 3)));
    assert_eq!(notes.unconfirmed(), Some((amount(16, 0), 7)));
    let notes = InvoiceStatusNotes {
        issued: stat(10, 5),
        received: stat(6, 2),
        accepted: scaled(-4500, 3, 0),
    };
    assert_eq!(notes.total_pending(), Some((amount(-4500, 3), 0)));
    assert_eq!(notes.unconfirmed(), Some((amount(16, 0), 7)));
    assert_eq!(notes.issued, stat(10, 5));
    assert_eq!(notes.received, stat(6, 2));
    assert_eq!(notes.accepted, scaled(-4500, 3, 0));
}

#[test]
fn the_accepted_total_comes_back_byte_for_byte() {
    let padded = Amount { negative: true, magnitude: vec![0, 0, 9], scale: 4 };
    let notes = InvoiceStatusNotes {
        issued: stat(1, 1),
        received: stat(1, 1),
        accepted: StatValue { total_amount: padded.duplicate(), agreements_count: 8 },
    };
    assert_eq!(notes.total_pending(), Some((padded, 8)));
    let empty = Amount { negative: false, magnitude: Vec::new(), scale: 0 };
    assert_eq!(empty.duplicate(), empty);
}

#[test]
fn amounts_meet_at_the_larger_scale() {
    // 1.50 - 0.5 = 1.00
    assert_eq!(scaled(150, 2, 4).checked_sub(&scaled(5, 1, 1)), Some(scaled(100, 2, 3)));
    // 0.5 - 1.50 = -1.00
    assert_eq!(scaled(5, 1, 4).checked_sub(&scaled(150, 2, 4)), Some(scaled(-100, 2, 0)));
    // 1.50 + 0.5 = 2.00
    assert_eq!(scaled(150, 2, 4).checked_add(&scaled(5, 1, 1)), Some(scaled(200, 2, 5)));
    // 0.5 + 1.50 = 2.00
    assert_eq!(scaled(5, 1, 1).checked_add(&scaled(150, 2, 4)), Some(scaled(200, 2, 5)));
}

#[test]
fn zero_keeps_the_larger_scale() {
    let zero = || scaled(0, 4, 0);
    let one = || scaled(1, 0, 1);
    assert_eq!(one().checked_sub(&zero()), Some(scaled(10000, 4, 1)));
    assert_eq!(one().checked_add(&zero()), Some(scaled(10000, 4, 1)));
    assert_eq!(zero().checked_add(&one()), Some(scaled(10000, 4, 1)));
    assert_eq!(scaled(0, 0, 0).checked_sub(&zero()), Some(scaled(0, 4, 0)));
    assert_eq!(scaled(0, 0, 0).checked_add(&zero()), Some(scaled(0, 4, 0)));
    assert_eq!(zero().checked_sub(&scaled(7, 6, 0)), Some(scaled(-7, 6, 0)));
    assert_eq!(scaled(0, 9, 1).checked_sub(&one()), Some(scaled(-1_000_000_000, 9, 0)));
}

#[test]
fn digits_may_be_written_with_bytes_to_spare() {
    let padded = StatValue {
        total_amount: Amount { negative: false, magnitude: vec![0, 1, 0], scale: 0 },
        agreements_count: 0,
    };
    assert_eq!(padded.checked_add(&stat(1, 0)), Some(stat(257, 0)));
    assert_eq!(padded.checked_sub(&stat(256, 0)), Some(stat(0, 0)));
    let nothing = StatValue {
        total_amount: Amount { negative: true, magnitude: Vec::new(), scale: 2 },
        agreements_count: 0,
    };
    assert_eq!(nothing.checked_add(&stat(5, 0)), Some(scaled(500, 2, 0)));
    assert_eq!(nothing.checked_sub(&stat(5, 0)), Some(scaled(-500, 2, 0)));
    let below = StatValue {
        total_amount: Amount { negative: true, magnitude: vec![0], scale: 0 },
        agreements_count: 0,
    };
    assert_eq!(below.checked_add(&stat(0, 0)), Some(stat(0, 0)));
}

#[test]
fn a_count_that_would_fall_below_zero_gives_no_sum() {
    let notes = StatusNotes { requested: stat(10, 1), accepted: stat(7, 3), confirmed: stat(4, 4) };
    assert_eq!(notes.total_pending(), None);
    assert_eq!(notes.unconfirmed(), None);
}

#[test]
fn a_count_that_does_not_fit_gives_no_sum() {
    let notes = InvoiceStatusNotes {
        issued: stat(1, u64::MAX),
        received: stat(1, 1),
        accepted: stat(0, 0),
    };
    assert_eq!(notes.unconfirmed(), None);
    assert_eq!(notes.total_pending(), Some((amount(0, 0), 0)));
    let notes = InvoiceStatusNotes {
        issued: stat(1, u64::MAX),
        received: stat(1, 0),
        accepted: stat(0, 0),
    };
    assert_eq!(notes.unconfirmed(), Some((amount(2, 0), u64::MAX)));
}

#[test]
fn an_amount_may_be_of_any_size() {
    let most = || stat(i128::MAX, 1);
    let least = || stat(i128::MIN, 1);
    let twice = BigInt::from(i128::MAX) * 2;
    assert_eq!(
        most().checked_add(&most()),
        Some(StatValue { total_amount: digits(twice, 0), agreements_count: 2 })
    );
    let span = BigInt::from(i128::MAX) - BigInt::from(i128::MIN);
    assert_eq!(
        most().checked_sub(&least()),
        Some(StatValue { total_amount: digits(span.clone(), 0), agreements_count: 0 })
    );
    assert_eq!(
        least().checked_sub(&most()),
        Some(StatValue { total_amount: digits(-span, 0), agreements_count: 0 })
    );
    // one, written with 255 digits after the point, less the smallest step
    let fine = scaled(1, 255, 0);
    let ten = BigInt::from(10);
    let expected = ten.pow(255) - 1;
    assert_eq!(
        stat(1, 0).checked_sub(&fine),
        Some(StatValue { total_amount: digits(expected, 255), agreements_count: 0 })
    );
    let notes = InvoiceStatusNotes { issued: most(), received: most(), accepted: stat(0, 0) };
    assert_eq!(
        notes.unconfirmed(),
        Some((digits(BigInt::from(i128::MAX) * 2, 0), 2))
    );
}
