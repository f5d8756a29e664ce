use hotel_booking::cancel::{
    begin_cancel, cancel_on_decremented, cancel_on_fetch, cancel_on_payment_canceled,
    cancel_on_reservation_canceled, CancelRequest,
};
use hotel_booking::loyalty::{decrement, Loyalty};
use hotel_booking::model::{
    Date, GatewayError, HotelInfo, LoyaltyStatus, PaymentStatus, ReservationServiceResponse, Uid,
    UpstreamError,
};

// A bare-bones stand-in for the three stores, tracking only what the
// cancel workflow mutates.
struct Stores {
    reservation_status: PaymentStatus,
    payment_status: PaymentStatus,
    loyalty: Option<Loyalty>,
}

fn stored_row() -> ReservationServiceResponse {
    ReservationServiceResponse {
        reservation_uid: Uid { value: 90 },
        hotel: HotelInfo {
            hotel_uid: Uid { value: 7 },
            name: "Grand".to_string(),
            full_address: "FR, Paris, 1 Rue".to_string(),
            stars: 4,
        },
        start_date: Date { days: 20_000 },
        end_date: Date { days: 20_003 },
        status: PaymentStatus::Paid,
        payment_uid: Uid { value: 40 },
    }
}

fn request() -> CancelRequest {
    CancelRequest { username: "alice".to_string(), reservation_uid: Uid { value: 90 } }
}

#[test]
fn cancel_paid_reservation_cancels_payment_and_decrements() {
    let mut stores = Stores {
        reservation_status: PaymentStatus::Paid,
        payment_status: PaymentStatus::Paid,
        loyalty: Some(Loyalty {
            username: "alice".to_string(),
            reservation_count: 3,
            status: LoyaltyStatus::Bronze,
            discount: 5,
        }),
    };

    let st = begin_cancel(request());
    let st = cancel_on_fetch(st, Ok(stored_row())).unwrap();
    assert_eq!(st.payment_uid, Uid { value: 40 });

    // Step two: the store marks the row canceled.
    stores.reservation_status = PaymentStatus::Canceled;
    let st = cancel_on_reservation_canceled(st, Ok(())).unwrap();

    // Step three: the ledger cancels exactly the linked payment.
    assert_eq!(st.payment_uid, Uid { value: 40 });
    stores.payment_status = PaymentStatus::Canceled;
    let st = cancel_on_payment_canceled(st, Ok(())).unwrap();

    // Step four: the loyalty counter goes down by one.
    stores.loyalty = decrement(stores.loyalty.take());
    let done = cancel_on_decremented(st, Ok(()));
    assert!(done.is_ok());

    assert_eq!(stores.reservation_status, PaymentStatus::Canceled);
    assert_eq!(stores.payment_status, PaymentStatus::Canceled);
    assert_eq!(stores.loyalty.as_ref().unwrap().reservation_count, 2);
}

#[test]
fn failed_payment_cancel_leaves_reservation_canceled() {
    let mut stores = Stores {
        reservation_status: PaymentStatus::Paid,
        payment_status: PaymentStatus::Paid,
        loyalty: Some(Loyalty {
            username: "alice".to_string(),
            reservation_count: 3,
            status: LoyaltyStatus::Bronze,
            discount: 5,
        }),
    };

    let st = begin_cancel(request());
    let st = cancel_on_fetch(st, Ok(stored_row())).unwrap();

    stores.reservation_status = PaymentStatus::Canceled;
    let st = cancel_on_reservation_canceled(st, Ok(())).unwrap();

    // The ledger is unreachable: the saga aborts here, and nothing
    // rolls the reservation back or touches the loyalty counter.
    let err = cancel_on_payment_canceled(st, Err(UpstreamError::Unreachable));
    assert_eq!(err.unwrap_err(), GatewayError::ServiceUnavailable);

    assert_eq!(stores.reservation_status, PaymentStatus::Canceled);
    assert_eq!(stores.payment_status, PaymentStatus::Paid);
    assert_eq!(stores.loyalty.as_ref().unwrap().reservation_count, 3);
}

#[test]
fn missing_reservation_aborts_with_passthrough_status() {
    let st = begin_cancel(request());
    let err = cancel_on_fetch(st, Err(UpstreamError::Rejected(404)));
    assert_eq!(err.unwrap_err(), GatewayError::Rejected(404));
}

#[test]
fn failed_decrement_still_reports_error() {
    let st = begin_cancel(request());
    let st = cancel_on_fetch(st, Ok(stored_row())).unwrap();
    let st = cancel_on_reservation_canceled(st, Ok(())).unwrap();
    let st = cancel_on_payment_canceled(st, Ok(())).unwrap();
    let err = cancel_on_decremented(st, Err(UpstreamError::Malformed));
    assert_eq!(err.unwrap_err(), GatewayError::Internal);
}
