use hotel_booking::model::Date;
use hotel_booking::pricing::{apply_discount, nights, raw_cost};

#[test]
fn nights_counts_whole_days() {
    assert_eq!(nights(Date { days: 100 }, Date { days: 103 }), 3);
    assert_eq!(nights(Date { days: 100 }, Date { days: 100 }), 0);
}

#[test]
fn nights_negative_when_dates_reversed() {
    assert_eq!(nights(Date { days: 103 }, Date { days: 100 }), -3);
}

#[test]
fn raw_cost_is_nights_times_price() {
    assert_eq!(raw_cost(Date { days: 0 }, Date { days: 3 }, 1000), 3000);
    assert_eq!(raw_cost(Date { days: 10 }, Date { days: 11 }, 250), 250);
}

#[test]
fn raw_cost_negative_stay_passes_through() {
    assert_eq!(raw_cost(Date { days: 3 }, Date { days: 0 }, 1000), -3000);
}

#[test]
fn discount_is_truncating() {
    assert_eq!(apply_discount(3000, 5), 2850);
    assert_eq!(apply_discount(3000, 7), 2790);
    assert_eq!(apply_discount(3000, 10), 2700);
    // 101 * 5 / 100 truncates to 5, so 96 is charged, one more than
    // the floor of 101 * 95 / 100.
    assert_eq!(apply_discount(101, 5), 96);
    assert_eq!(apply_discount(0, 10), 0);
}

#[test]
fn discount_matches_floor_when_share_divides_evenly() {
    assert_eq!(apply_discount(3000, 5), 3000 * 95 / 100);
    assert_eq!(apply_discount(200, 10), 200 * 90 / 100);
}

#[test]
fn discount_on_negative_cost_truncates_toward_zero() {
    // -3000 * 5 / 100 is -150; subtracting it yields -2850.
    assert_eq!(apply_discount(-3000, 5), -2850);
    assert_eq!(apply_discount(-101, 5), -96);
}
