//! The create-reservation saga: five strictly ordered collaborator
//! calls — fetch the hotel, fetch the caller's loyalty account, open a
//! payment, raise the loyalty counter, insert the reservation row —
//! where each step's input depends on the previous step's output.
//!
//! The saga is a typed state machine. Each state names the one call
//! that is pending; a driver performs that call and hands the outcome
//! to the matching step function, which either produces the next state
//! or the client-visible error that aborts the saga. The first failing
//! step aborts the remainder; effects of earlier steps are never rolled
//! back, so a payment can be left orphaned — a documented gap of the
//! workflow, not a feature of this module.

use vstd::prelude::*;

use crate::model::CreateReservationResponse;
use crate::model::GatewayError;
use crate::model::HotelResponse;
use crate::model::LoyaltyInfoResponse;
use crate::model::LoyaltyStatus;
use crate::model::PaymentInfo;
use crate::model::PaymentInfoServiceResponse;
use crate::model::PaymentStatus;
use crate::model::PostReservationServiceRequest;
use crate::model::PostReservationServiceResponse;
use crate::model::Uid;
use crate::model::UpstreamError;
use crate::model::spec_map_upstream;
use crate::model::Date;
use crate::pricing;

verus! {

/// What the client asked for, with the identity taken from the trusted
/// header: reserve the hotel for the stay from `start_date` to
/// `end_date`. An end date before the start date is not rejected; it
/// flows through as a negative cost.
#[derive(Clone, Debug)]
pub struct CreateRequest {
    pub username: String,
    pub hotel_uid: Uid,
    pub start_date: Date,
    pub end_date: Date,
}

impl CreateRequest {
    /// Both stay dates lie in the calendar range.
    pub open spec fn valid(self) -> bool {
        self.start_date.valid() && self.end_date.valid()
    }
}

/// First saga state: the hotel record for `req.hotel_uid` is being
/// fetched from the catalog.
#[derive(Clone, Debug)]
pub struct HotelPending {
    pub req: CreateRequest,
}

/// Second saga state: the raw cost is fixed and the caller's loyalty
/// account is being fetched.
#[derive(Clone, Debug)]
pub struct LoyaltyPending {
    pub req: CreateRequest,
    pub raw_cost: i64,
}

/// Third saga state: the discount is fixed and the payment ledger is
/// being asked to open a payment over the discounted cost.
#[derive(Clone, Debug)]
pub struct PaymentPending {
    pub req: CreateRequest,
    pub discount: i32,
    pub final_cost: i64,
}

/// Fourth saga state: the payment exists and the loyalty counter is
/// being raised. A failure from here on leaves the payment orphaned.
#[derive(Clone, Debug)]
pub struct IncrementPending {
    pub req: CreateRequest,
    pub discount: i32,
    pub payment: PaymentInfoServiceResponse,
}

/// Fifth saga state: the reservation row referencing the hotel and the
/// payment is being inserted into the store.
#[derive(Clone, Debug)]
pub struct ReservationPending {
    pub req: CreateRequest,
    pub discount: i32,
    pub payment: PaymentInfoServiceResponse,
}

/// Enters the saga: the first pending call is the hotel fetch.
pub fn begin_create(req: CreateRequest) -> (st: HotelPending)
    ensures
        st.req == req,
{
    HotelPending { req }
}

/// The hotel step's decision: a fetched hotel fixes the raw cost of the
/// stay (nights times nightly price); any failure aborts the saga with
/// the mapped client error.
pub open spec fn spec_on_hotel(st: HotelPending, result: Result<HotelResponse, UpstreamError>)
    -> Result<LoyaltyPending, GatewayError> {
    match result {
        Ok(hotel) => Ok(
            LoyaltyPending {
                req: st.req,
                raw_cost: pricing::spec_raw_cost(st.req.start_date, st.req.end_date, hotel.price)
                    as i64,
            },
        ),
        Err(e) => Err(spec_map_upstream(e)),
    }
}

/// Consumes the catalog's answer to the hotel fetch.
pub fn create_on_hotel(st: HotelPending, result: Result<HotelResponse, UpstreamError>) -> (r:
    Result<LoyaltyPending, GatewayError>)
    requires
        st.req.valid(),
    ensures
        r == spec_on_hotel(st, result),
        r matches Ok(next) ==> -pricing::RAW_COST_LIMIT <= next.raw_cost
            <= pricing::RAW_COST_LIMIT,
{
    match result {
        Ok(hotel) => {
            let raw = pricing::raw_cost(st.req.start_date, st.req.end_date, hotel.price);
            Ok(LoyaltyPending { req: st.req, raw_cost: raw })
        },
        Err(e) => Err(crate::model::map_upstream(e)),
    }
}

/// The account assumed for a caller the loyalty service has never seen:
/// a first reservation is not an error, it is a Bronze account with the
/// default five percent discount.
pub open spec fn spec_default_loyalty() -> LoyaltyInfoResponse {
    LoyaltyInfoResponse { status: LoyaltyStatus::Bronze, discount: 5, reservation_count: 1 }
}

/// The loyalty step's decision: a found account — or the default one
/// when the lookup reports no such account — fixes the discount, and
/// the discounted cost is computed at once; any other failure aborts
/// the saga.
pub open spec fn spec_on_loyalty(
    st: LoyaltyPending,
    lookup: Result<Option<LoyaltyInfoResponse>, UpstreamError>,
) -> Result<PaymentPending, GatewayError> {
    match lookup {
        Ok(found) => {
            let account = match found {
                Some(a) => a,
                None => spec_default_loyalty(),
            };
            Ok(
                PaymentPending {
                    req: st.req,
                    discount: account.discount,
                    final_cost: pricing::spec_apply_discount(
                        st.raw_cost as int,
                        account.discount as int,
                    ) as i64,
                },
            )
        },
        Err(e) => Err(spec_map_upstream(e)),
    }
}

/// Consumes the loyalty lookup's answer. `Ok(None)` reports that the
/// service answered "no such account", which is the one not-found that
/// does not abort the workflow.
pub fn create_on_loyalty(
    st: LoyaltyPending,
    lookup: Result<Option<LoyaltyInfoResponse>, UpstreamError>,
) -> (r: Result<PaymentPending, GatewayError>)
    requires
        -pricing::RAW_COST_LIMIT <= st.raw_cost <= pricing::RAW_COST_LIMIT,
        lookup matches Ok(Some(a)) ==> 0 <= a.discount <= 100,
    ensures
        r == spec_on_loyalty(st, lookup),
{
    match lookup {
        Ok(found) => {
            let discount: i32 = match found {
                Some(a) => a.discount,
                None => 5,
            };
            let final_cost = pricing::apply_discount(st.raw_cost, discount);
            Ok(PaymentPending { req: st.req, discount, final_cost })
        },
        Err(e) => Err(crate::model::map_upstream(e)),
    }
}

impl PaymentPending {
    /// The body sent to the payment ledger: a payment opened as Paid
    /// over the discounted cost.
    pub fn payment_request(&self) -> (r: PaymentInfo)
        ensures
            r == (PaymentInfo { status: PaymentStatus::Paid, price: self.final_cost }),
    {
        PaymentInfo { status: PaymentStatus::Paid, price: self.final_cost }
    }
}

/// The payment step's decision: the created payment record travels on
/// with the saga; a failure aborts it (nothing has to be undone yet —
/// the two reads had no side effects).
pub open spec fn spec_on_payment(
    st: PaymentPending,
    result: Result<PaymentInfoServiceResponse, UpstreamError>,
) -> Result<IncrementPending, GatewayError> {
    match result {
        Ok(payment) => Ok(IncrementPending { req: st.req, discount: st.discount, payment }),
        Err(e) => Err(spec_map_upstream(e)),
    }
}

/// Consumes the payment ledger's answer to the create call.
pub fn create_on_payment(
    st: PaymentPending,
    result: Result<PaymentInfoServiceResponse, UpstreamError>,
) -> (r: Result<IncrementPending, GatewayError>)
    ensures
        r == spec_on_payment(st, result),
{
    match result {
        Ok(payment) => Ok(IncrementPending { req: st.req, discount: st.discount, payment }),
        Err(e) => Err(crate::model::map_upstream(e)),
    }
}

/// The increment step's decision: success moves on to inserting the
/// reservation row; failure aborts the saga after the payment already
/// exists, leaving it orphaned — no compensating action is taken.
pub open spec fn spec_on_increment(st: IncrementPending, result: Result<(), UpstreamError>)
    -> Result<ReservationPending, GatewayError> {
    match result {
        Ok(_) => Ok(
            ReservationPending { req: st.req, discount: st.discount, payment: st.payment },
        ),
        Err(e) => Err(spec_map_upstream(e)),
    }
}

/// Consumes the loyalty service's answer to the increment call.
pub fn create_on_increment(st: IncrementPending, result: Result<(), UpstreamError>) -> (r: Result<
    ReservationPending,
    GatewayError,
>)
    ensures
        r == spec_on_increment(st, result),
{
    match result {
        Ok(_) => Ok(ReservationPending { req: st.req, discount: st.discount, payment: st.payment }),
        Err(e) => Err(crate::model::map_upstream(e)),
    }
}

impl ReservationPending {
    /// The row the reservation store is asked to insert: it references
    /// the requested hotel and the payment opened two steps earlier.
    pub fn reservation_request(&self) -> (r: PostReservationServiceRequest)
        ensures
            r == (PostReservationServiceRequest {
                hotel_uid: self.req.hotel_uid,
                payment_uid: self.payment.payment_uid,
                start_date: self.req.start_date,
                end_date: self.req.end_date,
            }),
    {
        PostReservationServiceRequest {
            hotel_uid: self.req.hotel_uid,
            payment_uid: self.payment.payment_uid,
            start_date: self.req.start_date,
            end_date: self.req.end_date,
        }
    }
}

/// The final step's decision: the inserted row is assembled with the
/// discount fixed at the loyalty step and the payment record fixed at
/// the payment step; failure aborts, leaving the payment and the raised
/// counter behind.
pub open spec fn spec_on_reservation(
    st: ReservationPending,
    result: Result<PostReservationServiceResponse, UpstreamError>,
) -> Result<CreateReservationResponse, GatewayError> {
    match result {
        Ok(row) => Ok(
            CreateReservationResponse {
                reservation_uid: row.reservation_uid,
                hotel_uid: row.hotel_uid,
                start_date: row.start_date,
                end_date: row.end_date,
                discount: st.discount,
                status: row.status,
                payment: PaymentInfo { status: st.payment.status, price: st.payment.price },
            },
        ),
        Err(e) => Err(spec_map_upstream(e)),
    }
}

/// Consumes the reservation store's answer and assembles the response.
pub fn create_on_reservation(
    st: ReservationPending,
    result: Result<PostReservationServiceResponse, UpstreamError>,
) -> (r: Result<CreateReservationResponse, GatewayError>)
    ensures
        r == spec_on_reservation(st, result),
{
    match result {
        Ok(row) => Ok(
            CreateReservationResponse {
                reservation_uid: row.reservation_uid,
                hotel_uid: row.hotel_uid,
                start_date: row.start_date,
                end_date: row.end_date,
                discount: st.discount,
                status: row.status,
                payment: PaymentInfo { status: st.payment.status, price: st.payment.price },
            },
        ),
        Err(e) => Err(crate::model::map_upstream(e)),
    }
}

/// A caller with no loyalty account yet is charged with the default
/// five percent discount: the lookup's "no such account" answer fixes
/// discount 5, and the payment is requested over the raw cost
/// discounted by exactly that.
pub proof fn lemma_first_time_caller_pays_default_discount(st: LoyaltyPending)
    ensures
        spec_on_loyalty(st, Ok(None)) matches Ok(next) && next.discount == 5
            && next.final_cost == pricing::spec_apply_discount(st.raw_cost as int, 5) as i64,
{
}

/// A successful run of the whole saga answers with the discount that
/// the loyalty lookup reported *before* the counter was incremented:
/// the price put on the payment is the raw cost discounted by the
/// account's value at lookup time, whatever the increment later did to
/// the account.
pub proof fn lemma_create_uses_preincrement_discount(
    req: CreateRequest,
    hotel: HotelResponse,
    account: LoyaltyInfoResponse,
    payment: PaymentInfoServiceResponse,
    row: PostReservationServiceResponse,
)
    requires
        req.valid(),
        0 <= account.discount <= 100,
    ensures
        ({
            let raw = pricing::spec_raw_cost(req.start_date, req.end_date, hotel.price);
            let st1 = spec_on_hotel(HotelPending { req }, Ok(hotel));
            &&& st1 matches Ok(at_loyalty)
            &&& at_loyalty.raw_cost == raw
            &&& spec_on_loyalty(at_loyalty, Ok(Some(account))) matches Ok(at_payment)
            &&& at_payment.final_cost == pricing::spec_apply_discount(raw, account.discount as int)
            &&& spec_on_payment(at_payment, Ok(payment)) matches Ok(at_increment)
            &&& spec_on_increment(at_increment, Ok(())) matches Ok(at_reservation)
            &&& spec_on_reservation(at_reservation, Ok(row)) matches Ok(response)
            &&& response.discount == account.discount
            &&& response.payment.price == payment.price
        }),
{
    let raw = pricing::spec_raw_cost(req.start_date, req.end_date, hotel.price);
    pricing::lemma_raw_cost_in_range(req.start_date, req.end_date, hotel.price);
    pricing::lemma_apply_discount_in_range(raw, account.discount as int);
}

} // verus!
