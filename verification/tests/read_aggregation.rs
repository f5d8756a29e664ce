use hotel_booking::aggregate::{assemble_user_info, enrich_reservations, payment_fetch_plan};
use hotel_booking::model::{
    Date, GatewayError, HotelInfo, LoyaltyInfoResponse, LoyaltyStatus, PaymentInfo, PaymentStatus,
    ReservationResponse, ReservationServiceResponse, Uid,
};

fn row(id: u128, payment_id: u128) -> ReservationServiceResponse {
    ReservationServiceResponse {
        reservation_uid: Uid { value: id },
        hotel: HotelInfo {
            hotel_uid: Uid { value: 7 },
            name: "Grand".to_string(),
            full_address: "FR, Paris, 1 Rue".to_string(),
            stars: 4,
        },
        start_date: Date { days: 20_000 },
        end_date: Date { days: 20_003 },
        status: PaymentStatus::Paid,
        payment_uid: Uid { value: payment_id },
    }
}

#[test]
fn fetch_plan_follows_list_order() {
    let rows = vec![row(1, 11), row(2, 12), row(3, 13)];
    let plan = payment_fetch_plan(&rows);
    assert_eq!(plan, vec![Uid { value: 11 }, Uid { value: 12 }, Uid { value: 13 }]);
}

#[test]
fn enrichment_keeps_reservation_order() {
    let rows = vec![row(1, 11), row(2, 12), row(3, 13)];
    // The fetches settle in whatever order the network decides; the
    // outcomes are indexed by reservation position, so a late first
    // fetch cannot reorder anything.
    let payments = vec![
        Ok(PaymentInfo { status: PaymentStatus::Paid, price: 100 }),
        Ok(PaymentInfo { status: PaymentStatus::Paid, price: 200 }),
        Ok(PaymentInfo { status: PaymentStatus::Canceled, price: 300 }),
    ];
    let out = enrich_reservations(rows, &payments).unwrap();
    assert_eq!(out.len(), 3);
    assert_eq!(out[0].reservation_uid, Uid { value: 1 });
    assert_eq!(out[0].payment.price, 100);
    assert_eq!(out[1].reservation_uid, Uid { value: 2 });
    assert_eq!(out[1].payment.price, 200);
    assert_eq!(out[2].reservation_uid, Uid { value: 3 });
    assert_eq!(out[2].payment.price, 300);
    assert_eq!(out[2].payment.status, PaymentStatus::Canceled);
}

#[test]
fn one_failed_fetch_fails_the_whole_aggregate() {
    let rows = vec![row(1, 11), row(2, 12), row(3, 13)];
    let payments = vec![
        Ok(PaymentInfo { status: PaymentStatus::Paid, price: 100 }),
        Err(GatewayError::ServiceUnavailable),
        Ok(PaymentInfo { status: PaymentStatus::Paid, price: 300 }),
    ];
    let out = enrich_reservations(rows, &payments);
    assert_eq!(out.unwrap_err(), GatewayError::ServiceUnavailable);
}

#[test]
fn first_failed_position_wins() {
    let rows = vec![row(1, 11), row(2, 12)];
    let payments = vec![Err(GatewayError::Internal), Err(GatewayError::ServiceUnavailable)];
    let out = enrich_reservations(rows, &payments);
    assert_eq!(out.unwrap_err(), GatewayError::Internal);
}

#[test]
fn empty_list_enriches_to_empty_list() {
    let out = enrich_reservations(Vec::new(), &Vec::new()).unwrap();
    assert!(out.is_empty());
}

#[test]
fn enrichment_joins_row_with_payment() {
    let payment = PaymentInfo { status: PaymentStatus::Paid, price: 2850 };
    let joined = ReservationResponse::from_svc_responses(row(1, 11), payment);
    assert_eq!(joined.reservation_uid, Uid { value: 1 });
    assert_eq!(joined.hotel.hotel_uid, Uid { value: 7 });
    assert_eq!(joined.status, PaymentStatus::Paid);
    assert_eq!(joined.payment, payment);
    assert_eq!(joined.start_date, Date { days: 20_000 });
    assert_eq!(joined.end_date, Date { days: 20_003 });
}

#[test]
fn profile_needs_both_parts() {
    let loyalty = LoyaltyInfoResponse {
        status: LoyaltyStatus::Bronze,
        discount: 5,
        reservation_count: 1,
    };
    let reservations: Vec<ReservationResponse> = Vec::new();

    let info = assemble_user_info(Ok(loyalty), Ok(reservations.clone())).unwrap();
    assert_eq!(info.loyalty.discount, 5);
    assert!(info.reservations.is_empty());

    let err = assemble_user_info(Err(GatewayError::Rejected(404)), Ok(reservations.clone()));
    assert_eq!(err.unwrap_err(), GatewayError::Rejected(404));

    let err = assemble_user_info(Ok(loyalty), Err(GatewayError::ServiceUnavailable));
    assert_eq!(err.unwrap_err(), GatewayError::ServiceUnavailable);
}
