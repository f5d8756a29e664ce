//! Plain-value models of the records the orchestrator moves between
//! services: identifiers, calendar dates, statuses, and the request and
//! response shapes of the client-facing operations.

use vstd::prelude::*;

verus! {

/// An opaque 128-bit identifier, standing for the UUIDs that key hotels,
/// reservations and payments. The orchestrator never inspects one; it
/// only copies them between requests and responses.
#[derive(Clone, Copy, PartialEq, Eq, Structural, Debug)]
pub struct Uid {
    pub value: u128,
}

/// A calendar date as a signed day number. The orchestrator only ever
/// subtracts two dates, so the day count is the whole model; converting
/// from a year/month/day calendar type happens outside the crate.
#[derive(Clone, Copy, PartialEq, Eq, Structural, Debug)]
pub struct Date {
    pub days: i32,
}

impl Date {
    /// A date within the range any calendar library can represent.
    pub open spec fn valid(self) -> bool {
        -crate::DATE_DAY_LIMIT <= self.days <= crate::DATE_DAY_LIMIT
    }
}

/// Status of a payment record.
#[derive(Clone, Copy, PartialEq, Eq, Structural, Debug)]
pub enum PaymentStatus {
    Paid,
    Canceled,
}

/// Status of a reservation row.
#[derive(Clone, Copy, PartialEq, Eq, Structural, Debug)]
pub enum ReservationStatus {
    Paid,
    Canceled,
}

/// Loyalty tier of an account.
#[derive(Clone, Copy, PartialEq, Eq, Structural, Debug)]
pub enum LoyaltyStatus {
    Bronze,
    Silver,
    Gold,
}

/// Page selector for the hotel listing, forwarded untouched to the
/// catalog service.
#[derive(Clone, Copy, PartialEq, Eq, Structural, Debug)]
pub struct PaginationRequest {
    pub page: usize,
    pub size: usize,
}

/// A hotel record as the catalog service reports it.
#[derive(Clone, Debug)]
pub struct HotelResponse {
    pub hotel_uid: Uid,
    pub name: String,
    pub country: String,
    pub city: String,
    pub address: String,
    pub stars: i32,
    pub price: i32,
}

/// The short hotel form embedded in a reservation record.
#[derive(Clone, Debug)]
pub struct HotelInfo {
    pub hotel_uid: Uid,
    pub name: String,
    pub full_address: String,
    pub stars: i32,
}

/// Payment status and price, as shown to the client and as sent to the
/// payment ledger when a payment is opened.
#[derive(Clone, Copy, PartialEq, Eq, Structural, Debug)]
pub struct PaymentInfo {
    pub status: PaymentStatus,
    pub price: i64,
}

/// A payment record as the payment ledger reports it after creation.
#[derive(Clone, Copy, PartialEq, Eq, Structural, Debug)]
pub struct PaymentInfoServiceResponse {
    pub payment_uid: Uid,
    pub status: PaymentStatus,
    pub price: i64,
}

/// A loyalty account as reported to the client: tier, discount percent
/// and reservation counter.
#[derive(Clone, Copy, PartialEq, Eq, Structural, Debug)]
pub struct LoyaltyInfoResponse {
    pub status: LoyaltyStatus,
    pub discount: i32,
    pub reservation_count: i32,
}

/// A reservation row as the reservation store reports it, before the
/// payment details are filled in.
#[derive(Clone, Debug)]
pub struct ReservationServiceResponse {
    pub reservation_uid: Uid,
    pub hotel: HotelInfo,
    pub start_date: Date,
    pub end_date: Date,
    pub status: PaymentStatus,
    pub payment_uid: Uid,
}

/// A reservation as shown to the client: the stored row enriched with
/// its payment's details.
#[derive(Clone, Debug)]
pub struct ReservationResponse {
    pub reservation_uid: Uid,
    pub hotel: HotelInfo,
    pub start_date: Date,
    pub end_date: Date,
    pub status: PaymentStatus,
    pub payment: PaymentInfo,
}

impl ReservationResponse {
    /// The enrichment of a stored reservation row with its payment.
    pub open spec fn spec_from_svc_responses(
        res: ReservationServiceResponse,
        payment: PaymentInfo,
    ) -> ReservationResponse {
        ReservationResponse {
            reservation_uid: res.reservation_uid,
            hotel: res.hotel,
            start_date: res.start_date,
            end_date: res.end_date,
            status: res.status,
            payment,
        }
    }

    /// Joins a stored reservation row with the payment fetched for it.
    pub fn from_svc_responses(res: ReservationServiceResponse, payment: PaymentInfo) -> (r:
        ReservationResponse)
        ensures
            r == Self::spec_from_svc_responses(res, payment),
    {
        ReservationResponse {
            reservation_uid: res.reservation_uid,
            hotel: res.hotel,
            start_date: res.start_date,
            end_date: res.end_date,
            status: res.status,
            payment,
        }
    }
}

/// The full user profile: every reservation, enriched, next to the
/// loyalty account.
#[derive(Clone, Debug)]
pub struct UserInfoResponse {
    pub reservations: Vec<ReservationResponse>,
    pub loyalty: LoyaltyInfoResponse,
}

/// A client's request to reserve a hotel for a stay.
#[derive(Clone, Copy, PartialEq, Eq, Structural, Debug)]
pub struct CreateReservationRequest {
    pub hotel_uid: Uid,
    pub start_date: Date,
    pub end_date: Date,
}

/// The record answered to a successful create request.
#[derive(Clone, Copy, PartialEq, Eq, Structural, Debug)]
pub struct CreateReservationResponse {
    pub reservation_uid: Uid,
    pub hotel_uid: Uid,
    pub start_date: Date,
    pub end_date: Date,
    pub discount: i32,
    pub status: PaymentStatus,
    pub payment: PaymentInfo,
}

/// The row the orchestrator asks the reservation store to insert.
#[derive(Clone, Copy, PartialEq, Eq, Structural, Debug)]
pub struct PostReservationServiceRequest {
    pub hotel_uid: Uid,
    pub payment_uid: Uid,
    pub start_date: Date,
    pub end_date: Date,
}

/// The inserted reservation row as the store reports it back.
#[derive(Clone, Copy, PartialEq, Eq, Structural, Debug)]
pub struct PostReservationServiceResponse {
    pub reservation_uid: Uid,
    pub hotel_uid: Uid,
    pub payment_uid: Uid,
    pub start_date: Date,
    pub end_date: Date,
    pub status: PaymentStatus,
}

/// How a call to a backing service failed, as the transport layer
/// reports it: the service could not be reached, it answered with a
/// non-success status, or its body did not parse as the expected shape.
#[derive(Clone, Copy, PartialEq, Eq, Structural, Debug)]
pub enum UpstreamError {
    Unreachable,
    Rejected(u16),
    Malformed,
}

/// The client-visible failure of an orchestrated operation, one HTTP
/// status per request.
#[derive(Clone, Copy, PartialEq, Eq, Structural, Debug)]
pub enum GatewayError {
    /// The identity header is missing or unreadable.
    BadRequest,
    /// A backing service could not be reached.
    ServiceUnavailable,
    /// A backing service answered with a body of the wrong shape.
    Internal,
    /// A backing service rejected the call; its status is passed through.
    Rejected(u16),
}

/// How each transport failure surfaces to the client: unreachable
/// becomes service-unavailable, a malformed body becomes an internal
/// error, and a rejection keeps the upstream status.
pub open spec fn spec_map_upstream(e: UpstreamError) -> GatewayError {
    match e {
        UpstreamError::Unreachable => GatewayError::ServiceUnavailable,
        UpstreamError::Rejected(status) => GatewayError::Rejected(status),
        UpstreamError::Malformed => GatewayError::Internal,
    }
}

/// Maps a transport failure to the client-visible error.
pub fn map_upstream(e: UpstreamError) -> (r: GatewayError)
    ensures
        r == spec_map_upstream(e),
{
    match e {
        UpstreamError::Unreachable => GatewayError::ServiceUnavailable,
        UpstreamError::Rejected(status) => GatewayError::Rejected(status),
        UpstreamError::Malformed => GatewayError::Internal,
    }
}

impl GatewayError {
    /// The HTTP status code each error answers with.
    pub open spec fn spec_http_status(self) -> u16 {
        match self {
            GatewayError::BadRequest => 400u16,
            GatewayError::ServiceUnavailable => 503u16,
            GatewayError::Internal => 500u16,
            GatewayError::Rejected(status) => status,
        }
    }

    /// The HTTP status code this error answers with.
    pub fn http_status(&self) -> (r: u16)
        ensures
            r == self.spec_http_status(),
    {
        match self {
            GatewayError::BadRequest => 400,
            GatewayError::ServiceUnavailable => 503,
            GatewayError::Internal => 500,
            GatewayError::Rejected(status) => *status,
        }
    }
}

impl ReservationStatus {
    /// The text under which this status is stored and serialized.
    pub open spec fn spec_text(self) -> Seq<char> {
        match self {
            ReservationStatus::Paid => "PAID"@,
            ReservationStatus::Canceled => "CANCELED"@,
        }
    }

    /// Which status a stored text denotes, if any.
    pub open spec fn spec_from_text(s: Seq<char>) -> Result<ReservationStatus, ()> {
        if s == "PAID"@ {
            Ok(ReservationStatus::Paid)
        } else if s == "CANCELED"@ {
            Ok(ReservationStatus::Canceled)
        } else {
            Err(())
        }
    }

    /// Renders the status as its stored text.
    pub fn to_text(&self) -> (r: String)
        ensures
            r@ == self.spec_text(),
    {
        match self {
            ReservationStatus::Paid => String::from_str("PAID"),
            ReservationStatus::Canceled => String::from_str("CANCELED"),
        }
    }

    /// Parses a stored text back into a status.
    pub fn from_text(s: &String) -> (r: Result<ReservationStatus, ()>)
        ensures
            r == Self::spec_from_text(s@),
    {
        let paid = String::from_str("PAID");
        let canceled = String::from_str("CANCELED");
        if *s == paid {
            Ok(ReservationStatus::Paid)
        } else if *s == canceled {
            Ok(ReservationStatus::Canceled)
        } else {
            Err(())
        }
    }
}

impl PaymentStatus {
    /// The text under which this status is stored and serialized.
    pub open spec fn spec_text(self) -> Seq<char> {
        match self {
            PaymentStatus::Paid => "PAID"@,
            PaymentStatus::Canceled => "CANCELED"@,
        }
    }

    /// Renders the status as its stored text.
    pub fn to_text(&self) -> (r: String)
        ensures
            r@ == self.spec_text(),
    {
        match self {
            PaymentStatus::Paid => String::from_str("PAID"),
            PaymentStatus::Canceled => String::from_str("CANCELED"),
        }
    }
}

} // verus!
