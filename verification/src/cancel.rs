//! The cancel-reservation saga: four strictly ordered collaborator
//! calls — fetch the reservation to learn its payment, mark the
//! reservation canceled, cancel that payment, lower the loyalty
//! counter. Each step's failure aborts the remaining steps, and prior
//! steps are never rolled back: a reservation already marked Canceled
//! stays Canceled even when the payment-cancel or loyalty step fails
//! afterwards. The machine has no transition that sets a reservation
//! back to Paid.

use vstd::prelude::*;

use crate::model::GatewayError;
use crate::model::ReservationServiceResponse;
use crate::model::Uid;
use crate::model::UpstreamError;
use crate::model::spec_map_upstream;

verus! {

/// What the client asked for: cancel the reservation with this
/// identifier, owned by this caller.
#[derive(Clone, Debug)]
pub struct CancelRequest {
    pub username: String,
    pub reservation_uid: Uid,
}

/// First saga state: the reservation row is being fetched to discover
/// which payment it references.
#[derive(Clone, Debug)]
pub struct FetchPending {
    pub req: CancelRequest,
}

/// Second saga state: the reservation store is being asked to mark the
/// row canceled. The linked payment's identifier is already fixed.
#[derive(Clone, Debug)]
pub struct ReservationCancelPending {
    pub req: CancelRequest,
    pub payment_uid: Uid,
}

/// Third saga state: the reservation is canceled for good, and the
/// ledger is being asked to cancel the linked payment.
#[derive(Clone, Debug)]
pub struct PaymentCancelPending {
    pub req: CancelRequest,
    pub payment_uid: Uid,
}

/// Fourth saga state: payment canceled too; the loyalty counter is
/// being lowered by one.
#[derive(Clone, Debug)]
pub struct DecrementPending {
    pub req: CancelRequest,
}

/// Enters the saga: the first pending call is the reservation fetch.
pub fn begin_cancel(req: CancelRequest) -> (st: FetchPending)
    ensures
        st.req == req,
{
    FetchPending { req }
}

/// The fetch step's decision: the fetched row fixes which payment the
/// saga will cancel; any failure — a missing row included — aborts with
/// the mapped client error.
pub open spec fn spec_cancel_on_fetch(
    st: FetchPending,
    result: Result<ReservationServiceResponse, UpstreamError>,
) -> Result<ReservationCancelPending, GatewayError> {
    match result {
        Ok(row) => Ok(ReservationCancelPending { req: st.req, payment_uid: row.payment_uid }),
        Err(e) => Err(spec_map_upstream(e)),
    }
}

/// Consumes the reservation store's answer to the fetch.
pub fn cancel_on_fetch(st: FetchPending, result: Result<ReservationServiceResponse, UpstreamError>)
    -> (r: Result<ReservationCancelPending, GatewayError>)
    ensures
        r == spec_cancel_on_fetch(st, result),
{
    match result {
        Ok(row) => Ok(ReservationCancelPending { req: st.req, payment_uid: row.payment_uid }),
        Err(e) => Err(crate::model::map_upstream(e)),
    }
}

/// The reservation-cancel step's decision: success moves on to
/// canceling the linked payment; failure aborts before anything was
/// changed downstream.
pub open spec fn spec_cancel_on_reservation_canceled(
    st: ReservationCancelPending,
    result: Result<(), UpstreamError>,
) -> Result<PaymentCancelPending, GatewayError> {
    match result {
        Ok(_) => Ok(PaymentCancelPending { req: st.req, payment_uid: st.payment_uid }),
        Err(e) => Err(spec_map_upstream(e)),
    }
}

/// Consumes the store's answer to marking the row canceled.
pub fn cancel_on_reservation_canceled(
    st: ReservationCancelPending,
    result: Result<(), UpstreamError>,
) -> (r: Result<PaymentCancelPending, GatewayError>)
    ensures
        r == spec_cancel_on_reservation_canceled(st, result),
{
    match result {
        Ok(_) => Ok(PaymentCancelPending { req: st.req, payment_uid: st.payment_uid }),
        Err(e) => Err(crate::model::map_upstream(e)),
    }
}

/// The payment-cancel step's decision: success moves on to the loyalty
/// decrement; failure aborts, and the reservation stays canceled — the
/// machine offers no way back.
pub open spec fn spec_cancel_on_payment_canceled(
    st: PaymentCancelPending,
    result: Result<(), UpstreamError>,
) -> Result<DecrementPending, GatewayError> {
    match result {
        Ok(_) => Ok(DecrementPending { req: st.req }),
        Err(e) => Err(spec_map_upstream(e)),
    }
}

/// Consumes the ledger's answer to canceling the payment.
pub fn cancel_on_payment_canceled(st: PaymentCancelPending, result: Result<(), UpstreamError>)
    -> (r: Result<DecrementPending, GatewayError>)
    ensures
        r == spec_cancel_on_payment_canceled(st, result),
{
    match result {
        Ok(_) => Ok(DecrementPending { req: st.req }),
        Err(e) => Err(crate::model::map_upstream(e)),
    }
}

/// The last step's decision: a lowered counter completes the saga; a
/// failure surfaces, with reservation and payment staying canceled.
pub open spec fn spec_cancel_on_decremented(
    st: DecrementPending,
    result: Result<(), UpstreamError>,
) -> Result<(), GatewayError> {
    match result {
        Ok(_) => Ok(()),
        Err(e) => Err(spec_map_upstream(e)),
    }
}

/// Consumes the loyalty service's answer to the decrement call.
pub fn cancel_on_decremented(st: DecrementPending, result: Result<(), UpstreamError>) -> (r: Result<
    (),
    GatewayError,
>)
    ensures
        r == spec_cancel_on_decremented(st, result),
{
    match result {
        Ok(_) => Ok(()),
        Err(e) => Err(crate::model::map_upstream(e)),
    }
}

/// A run over an existing reservation cancels exactly the payment that
/// the fetched row references, and reaches the loyalty decrement only
/// after both the reservation and that payment were canceled, in that
/// order. When the payment-cancel answer is a failure instead, the saga
/// aborts with the mapped error — after the reservation was already
/// marked canceled, which no later transition revisits.
pub proof fn lemma_cancel_order_and_target(
    req: CancelRequest,
    row: ReservationServiceResponse,
    payment_outcome: Result<(), UpstreamError>,
)
    ensures
        ({
            let st1 = spec_cancel_on_fetch(FetchPending { req }, Ok(row));
            &&& st1 matches Ok(at_cancel)
            &&& at_cancel.payment_uid == row.payment_uid
            &&& spec_cancel_on_reservation_canceled(at_cancel, Ok(())) matches Ok(at_payment)
            &&& at_payment.payment_uid == row.payment_uid
            &&& (payment_outcome matches Ok(_) ==> spec_cancel_on_payment_canceled(
                at_payment,
                payment_outcome,
            ) matches Ok(at_decrement) && at_decrement.req == req)
            &&& (payment_outcome matches Err(e) ==> spec_cancel_on_payment_canceled(
                at_payment,
                payment_outcome,
            ) == Err::<DecrementPending, GatewayError>(spec_map_upstream(e)))
        }),
{
}

} // verus!
