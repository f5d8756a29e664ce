//! Read aggregation: enriching a user's reservations with their payment
//! details. The driver issues one payment fetch per reservation — all
//! of them may run concurrently — and hands the settled outcomes back
//! in reservation order. The decisions here guarantee that the output
//! keeps the reservation list's order no matter which fetch finished
//! first, and that one failed fetch fails the whole aggregate with no
//! partial list.

use vstd::prelude::*;

use crate::model::GatewayError;
use crate::model::LoyaltyInfoResponse;
use crate::model::PaymentInfo;
use crate::model::ReservationResponse;
use crate::model::ReservationServiceResponse;
use crate::model::Uid;
use crate::model::UserInfoResponse;

verus! {

/// The fan-out plan: which payment to fetch for each position of the
/// reservation list. Fetches are issued in list order, one per row.
pub fn payment_fetch_plan(reservations: &Vec<ReservationServiceResponse>) -> (r: Vec<Uid>)
    ensures
        r@.len() == reservations@.len(),
        forall|i: int|
            0 <= i < r@.len() ==> r@[i] == reservations@[i].payment_uid,
{
    let mut plan: Vec<Uid> = Vec::new();
    let n = reservations.len();
    let mut i: usize = 0;
    while i < n
        invariant
            i <= n,
            n == reservations@.len(),
            plan@.len() == i,
            forall|j: int| 0 <= j < i ==> plan@[j] == reservations@[j].payment_uid,
        decreases n - i,
    {
        plan.push(reservations[i].payment_uid);
        i = i + 1;
    }
    plan
}

/// Joins each reservation with the outcome of its payment fetch, given
/// by position. All fetches must have succeeded for the aggregate to
/// succeed: the result is the enrichment of every row, in the order of
/// the reservation list; one failure fails the whole call with the
/// first failed position's error, and no partial list is handed out.
pub fn enrich_reservations(
    reservations: Vec<ReservationServiceResponse>,
    payments: &Vec<Result<PaymentInfo, GatewayError>>,
) -> (r: Result<Vec<ReservationResponse>, GatewayError>)
    requires
        payments@.len() == reservations@.len(),
    ensures
        match r {
            Ok(out) => {
                &&& forall|j: int| 0 <= j < payments@.len() ==> payments@[j] is Ok
                &&& out@.len() == reservations@.len()
                &&& forall|j: int|
                    0 <= j < out@.len() ==> out@[j]
                        == ReservationResponse::spec_from_svc_responses(
                        reservations@[j],
                        payments@[j]->Ok_0,
                    )
            },
            Err(e) => exists|k: int|
                {
                    &&& 0 <= k < payments@.len()
                    &&& #[trigger] payments@[k] is Err
                    &&& e == payments@[k]->Err_0
                    &&& forall|j: int| 0 <= j < k ==> payments@[j] is Ok
                },
        },
{
    let ghost all = reservations@;
    let mut rest = reservations;
    let mut out: Vec<ReservationResponse> = Vec::new();
    let n = payments.len();
    let mut i: usize = 0;
    while i < n
        invariant
            i <= n,
            n == all.len(),
            payments@.len() == all.len(),
            rest@ == all.subrange(i as int, all.len() as int),
            out@.len() == i,
            forall|j: int| 0 <= j < i ==> payments@[j] is Ok,
            forall|j: int|
                0 <= j < i ==> out@[j] == ReservationResponse::spec_from_svc_responses(
                    all[j],
                    payments@[j]->Ok_0,
                ),
        decreases n - i,
    {
        let fetched = payments[i];
        match fetched {
            Err(e) => {
                return Err(e);
            },
            Ok(payment) => {
                let row = rest.remove(0);
                proof {
                    assert(rest@ =~= all.subrange(i + 1, all.len() as int));
                }
                out.push(ReservationResponse::from_svc_responses(row, payment));
            },
        }
        i = i + 1;
    }
    Ok(out)
}

/// The profile assembly: the loyalty account and the enriched
/// reservation list must both have succeeded for the profile call to
/// succeed; the loyalty outcome is examined first, matching the order
/// in which the calls are issued.
pub fn assemble_user_info(
    loyalty: Result<LoyaltyInfoResponse, GatewayError>,
    reservations: Result<Vec<ReservationResponse>, GatewayError>,
) -> (r: Result<UserInfoResponse, GatewayError>)
    ensures
        match r {
            Ok(info) => {
                &&& loyalty matches Ok(l) && info.loyalty == l
                &&& reservations matches Ok(list) && info.reservations == list
            },
            Err(e) => {
                ||| loyalty == Err::<LoyaltyInfoResponse, GatewayError>(e)
                ||| (loyalty is Ok && reservations == Err::<Vec<ReservationResponse>, GatewayError>(
                    e,
                ))
            },
        },
{
    match loyalty {
        Err(e) => Err(e),
        Ok(l) => match reservations {
            Err(e) => Err(e),
            Ok(list) => Ok(UserInfoResponse { reservations: list, loyalty: l }),
        },
    }
}

} // verus!
