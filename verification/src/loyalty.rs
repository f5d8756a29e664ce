//! The loyalty tier engine: one account row per user, carrying a
//! reservation counter together with the tier and discount derived from
//! it. Every mutation moves the counter by exactly one, and the tier is
//! re-derived exactly at the counts where it can change.

use vstd::prelude::*;

use crate::model::LoyaltyStatus;

verus! {

/// Tier and discount for a reservation counter: twenty or more
/// reservations earn Gold with a 10 percent discount, ten or more earn
/// Silver with 7, anything below stays Bronze with 5.
pub open spec fn spec_classify(count: int) -> (LoyaltyStatus, int) {
    if count >= 20 {
        (LoyaltyStatus::Gold, 10int)
    } else if count >= 10 {
        (LoyaltyStatus::Silver, 7int)
    } else {
        (LoyaltyStatus::Bronze, 5int)
    }
}

/// A loyalty account row, keyed by username.
#[derive(Clone, Debug)]
pub struct Loyalty {
    pub username: String,
    pub reservation_count: i32,
    pub status: LoyaltyStatus,
    pub discount: i32,
}

impl Loyalty {
    /// A healthy account: tier and discount are exactly the
    /// classification of its reservation counter.
    pub open spec fn wf(self) -> bool {
        (self.status, self.discount as int) == spec_classify(self.reservation_count as int)
    }

    /// The account created for a user's first reservation.
    pub fn new(username: String) -> (r: Loyalty)
        ensures
            r.username == username,
            r.reservation_count == 1,
            r.status == LoyaltyStatus::Bronze,
            r.discount == 5,
            r.wf(),
    {
        Loyalty { username, reservation_count: 1, status: LoyaltyStatus::Bronze, discount: 5 }
    }

    /// Tier and discount for a reservation counter.
    pub fn loyalty_from_counter(counter: i32) -> (r: (LoyaltyStatus, i32))
        ensures
            (r.0, r.1 as int) == spec_classify(counter as int),
    {
        if counter >= 20 {
            (LoyaltyStatus::Gold, 10)
        } else if counter >= 10 {
            (LoyaltyStatus::Silver, 7)
        } else {
            (LoyaltyStatus::Bronze, 5)
        }
    }
}

/// The increment decision: a missing account is created with counter 1,
/// an existing one has its counter raised by one, and tier and discount
/// are re-derived exactly when the new counter is 10 or 20.
pub open spec fn spec_increment(existing: Option<Loyalty>, username: String) -> Loyalty {
    match existing {
        None => Loyalty {
            username,
            reservation_count: 1,
            status: LoyaltyStatus::Bronze,
            discount: 5,
        },
        Some(a) => {
            let c = a.reservation_count + 1;
            if c == 10 || c == 20 {
                Loyalty {
                    username: a.username,
                    reservation_count: c as i32,
                    status: spec_classify(c).0,
                    discount: spec_classify(c).1 as i32,
                }
            } else {
                Loyalty {
                    username: a.username,
                    reservation_count: c as i32,
                    status: a.status,
                    discount: a.discount,
                }
            }
        },
    }
}

/// The decrement decision: a missing account is an error (there is
/// nothing to take a reservation from), an existing one has its counter
/// lowered by one, and tier and discount are re-derived exactly when
/// the new counter is 9 or 19.
pub open spec fn spec_decrement(existing: Option<Loyalty>) -> Option<Loyalty> {
    match existing {
        None => None,
        Some(a) => {
            let c = a.reservation_count - 1;
            if c == 9 || c == 19 {
                Some(
                    Loyalty {
                        username: a.username,
                        reservation_count: c as i32,
                        status: spec_classify(c).0,
                        discount: spec_classify(c).1 as i32,
                    },
                )
            } else {
                Some(
                    Loyalty {
                        username: a.username,
                        reservation_count: c as i32,
                        status: a.status,
                        discount: a.discount,
                    },
                )
            }
        },
    }
}

/// Upserts an account for one new reservation, as the create workflow's
/// loyalty step demands.
pub fn increment(existing: Option<Loyalty>, username: String) -> (r: Loyalty)
    requires
        existing matches Some(a) ==> a.reservation_count < i32::MAX,
    ensures
        r == spec_increment(existing, username),
{
    match existing {
        None => Loyalty::new(username),
        Some(a) => {
            let c = a.reservation_count + 1;
            if c == 10 || c == 20 {
                let (status, discount) = Loyalty::loyalty_from_counter(c);
                Loyalty { username: a.username, reservation_count: c, status, discount }
            } else {
                Loyalty {
                    username: a.username,
                    reservation_count: c,
                    status: a.status,
                    discount: a.discount,
                }
            }
        },
    }
}

/// Takes one reservation off an account, as the cancel workflow's
/// loyalty step demands; `None` reports that no account exists.
pub fn decrement(existing: Option<Loyalty>) -> (r: Option<Loyalty>)
    requires
        existing matches Some(a) ==> a.reservation_count > i32::MIN,
    ensures
        r == spec_decrement(existing),
{
    match existing {
        None => None,
        Some(a) => {
            let c = a.reservation_count - 1;
            if c == 9 || c == 19 {
                let (status, discount) = Loyalty::loyalty_from_counter(c);
                Some(Loyalty { username: a.username, reservation_count: c, status, discount })
            } else {
                Some(
                    Loyalty {
                        username: a.username,
                        reservation_count: c,
                        status: a.status,
                        discount: a.discount,
                    },
                )
            }
        },
    }
}

/// Moving a counter by one changes its classification exactly when the
/// new counter is 10 or 20 on the way up — equivalently, exactly when
/// the old counter is 9 or 19 on the way down.
pub proof fn lemma_classify_changes_only_at_boundaries(c: int)
    ensures
        (spec_classify(c + 1) != spec_classify(c)) <==> (c + 1 == 10 || c + 1 == 20),
{
}

/// A user with no account yet ends their first reservation with a
/// Bronze account of one reservation and the default five percent
/// discount.
pub proof fn lemma_first_reservation_creates_bronze_account(username: String)
    ensures
        spec_increment(None, username).reservation_count == 1,
        spec_increment(None, username).status == LoyaltyStatus::Bronze,
        spec_increment(None, username).discount == 5,
        spec_increment(None, username).username == username,
{
}

/// Re-deriving the tier only at the boundary counters keeps an account
/// healthy across an increment: under single steps, the edge-triggered
/// update equals unconditional reclassification.
pub proof fn lemma_increment_keeps_wf(existing: Option<Loyalty>, username: String)
    requires
        existing matches Some(a) ==> a.wf() && a.reservation_count < i32::MAX,
    ensures
        spec_increment(existing, username).wf(),
{
    if let Some(a) = existing {
        lemma_classify_changes_only_at_boundaries(a.reservation_count as int);
    }
}

/// Re-deriving the tier only at the boundary counters keeps an account
/// healthy across a decrement as well.
pub proof fn lemma_decrement_keeps_wf(existing: Option<Loyalty>)
    requires
        existing matches Some(a) ==> a.wf() && a.reservation_count > i32::MIN,
    ensures
        spec_decrement(existing) matches Some(r) ==> r.wf(),
{
    if let Some(a) = existing {
        lemma_classify_changes_only_at_boundaries(a.reservation_count - 1);
    }
}

/// A loyalty account as the loyalty service reports it.
#[derive(Clone, Debug)]
pub struct LoyaltyResponse {
    pub status: LoyaltyStatus,
    pub discount: i32,
    pub reservation_count: i32,
}

impl From<Loyalty> for LoyaltyResponse {
    /// Projects an account row onto the reported shape, dropping the
    /// username key.
    fn from(value: Loyalty) -> (r: LoyaltyResponse) {
        LoyaltyResponse {
            status: value.status,
            discount: value.discount,
            reservation_count: value.reservation_count,
        }
    }
}

impl vstd::std_specs::convert::FromSpecImpl<Loyalty> for LoyaltyResponse {
    open spec fn obeys_from_spec() -> bool {
        true
    }

    open spec fn from_spec(t: Loyalty) -> LoyaltyResponse {
        LoyaltyResponse {
            status: t.status,
            discount: t.discount,
            reservation_count: t.reservation_count,
        }
    }
}

} // verus!
