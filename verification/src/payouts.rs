//! What a list of payouts is fetched by.

use vstd::prelude::*;

verus! {

/// The most payouts that one request of a list returns where the request
/// carries its constraints in its address.
pub const PAYOUTS_LIST_MAX_LIMIT_GET: u32 = 100;

/// The most payouts that one request of a list returns where the request
/// carries its constraints in its body.
pub const PAYOUTS_LIST_MAX_LIMIT_POST: u32 = 20;

/// The instants from a start on, up to an end where there is one. Instants
/// are in seconds since the Unix epoch.
#[derive(Debug, Clone, Copy, PartialEq, Eq, Structural)]
pub struct TimeRange {
    pub start_time: i64,
    pub end_time: Option<i64>,
}

/// The constraints of a list of payouts that is asked for page by page.
#[derive(Debug)]
pub struct PayoutListConstraints {
    pub customer_id: Option<String>,
    /// The payout after which the page starts.
    pub starting_after: Option<String>,
    /// The payout before which the page ends.
    pub ending_before: Option<String>,
    /// How many payouts are asked for.
    pub limit: u32,
    /// The instant from which payouts are listed, where no time range is
    /// given.
    pub created: Option<i64>,
    pub time_range: Option<TimeRange>,
}

/// The constraints of a list of payouts that is asked for with filters.
#[derive(Debug)]
pub struct PayoutListFilterConstraints {
    /// The one payout that is asked for; the other constraints are then
    /// without effect.
    pub payout_id: Option<String>,
    pub profile_id: Option<String>,
    pub customer_id: Option<String>,
    /// How many payouts are asked for.
    pub limit: u32,
    /// How many payouts are passed over.
    pub offset: Option<u32>,
    pub time_range: Option<TimeRange>,
    pub connector: Option<Vec<String>>,
    pub currency: Option<Vec<String>>,
    pub status: Option<Vec<String>>,
    pub payout_method: Option<Vec<String>>,
    pub entity_type: Option<String>,
    pub merchant_order_reference_id: Option<String>,
}

/// What a list of payouts is fetched by.
#[derive(Debug)]
pub struct PayoutListParams {
    pub offset: u32,
    pub starting_at: Option<i64>,
    pub ending_at: Option<i64>,
    pub connector: Option<Vec<String>>,
    pub currency: Option<Vec<String>>,
    pub status: Option<Vec<String>>,
    pub payout_method: Option<Vec<String>>,
    pub profile_id: Option<String>,
    pub customer_id: Option<String>,
    pub starting_after_id: Option<String>,
    pub ending_before_id: Option<String>,
    pub entity_type: Option<String>,
    pub limit: Option<u32>,
    pub merchant_order_reference_id: Option<String>,
}

/// What payouts are fetched by: one payout by its id, or a list by its
/// parameters.
#[derive(Debug)]
pub enum PayoutFetchConstraints {
    Single { payout_id: String },
    List(Box<PayoutListParams>),
}

/// The smaller of a requested limit and the most that is allowed.
pub open spec fn capped(limit: u32, most: u32) -> u32 {
    if limit < most {
        limit
    } else {
        most
    }
}

/// The smaller of a requested limit and the most that is allowed.
pub fn cap(limit: u32, most: u32) -> (r: u32)
    ensures
        r == capped(limit, most),
{
    if limit < most {
        limit
    } else {
        most
    }
}

/// Where a time range starts, if there is one.
pub open spec fn start_of(time_range: Option<TimeRange>) -> Option<i64> {
    match time_range {
        Some(t) => Some(t.start_time),
        None => None,
    }
}

/// Where a time range ends, if there is one and it has an end.
pub open spec fn end_of(time_range: Option<TimeRange>) -> Option<i64> {
    match time_range {
        Some(t) => t.end_time,
        None => None,
    }
}

impl From<PayoutListConstraints> for PayoutFetchConstraints {
    /// A list from the first payout on. It starts at the start of the time
    /// range or, without a time range, at the instant of creation that was
    /// asked for. The limit is capped.
    fn from(value: PayoutListConstraints) -> (r: PayoutFetchConstraints) {
        Self::List(
            Box::new(
                PayoutListParams {
                    offset: 0,
                    starting_at: match value.time_range {
                        Some(t) => Some(t.start_time),
                        None => value.created,
                    },
                    ending_at: match value.time_range {
                        Some(t) => t.end_time,
                        None => None,
                    },
                    connector: None,
                    currency: None,
                    status: None,
                    payout_method: None,
                    profile_id: None,
                    customer_id: value.customer_id,
                    starting_after_id: value.starting_after,
                    ending_before_id: value.ending_before,
                    entity_type: None,
                    merchant_order_reference_id: None,
                    limit: Some(cap(value.limit, PAYOUTS_LIST_MAX_LIMIT_GET)),
                },
            ),
        )
    }
}

impl vstd::std_specs::convert::FromSpecImpl<PayoutListConstraints> for PayoutFetchConstraints {
    open spec fn obeys_from_spec() -> bool {
        true
    }

    open spec fn from_spec(value: PayoutListConstraints) -> PayoutFetchConstraints {
        PayoutFetchConstraints::List(
            Box::new(
                PayoutListParams {
                    offset: 0,
                    starting_at: match value.time_range {
                        Some(t) => Some(t.start_time),
                        None => value.created,
                    },
                    ending_at: end_of(value.time_range),
                    connector: None,
                    currency: None,
                    status: None,
                    payout_method: None,
                    profile_id: None,
                    customer_id: value.customer_id,
                    starting_after_id: value.starting_after,
                    ending_before_id: value.ending_before,
                    entity_type: None,
                    merchant_order_reference_id: None,
                    limit: Some(capped(value.limit, PAYOUTS_LIST_MAX_LIMIT_GET)),
                },
            ),
        )
    }
}

impl From<TimeRange> for PayoutFetchConstraints {
    /// The list of all payouts of a time range, without a limit.
    fn from(value: TimeRange) -> (r: PayoutFetchConstraints) {
        Self::List(
            Box::new(
                PayoutListParams {
                    offset: 0,
                    starting_at: Some(value.start_time),
                    ending_at: value.end_time,
                    connector: None,
                    currency: None,
                    status: None,
                    payout_method: None,
                    profile_id: None,
                    customer_id: None,
                    starting_after_id: None,
                    ending_before_id: None,
                    entity_type: None,
                    merchant_order_reference_id: None,
                    limit: None,
                },
            ),
        )
    }
}

impl vstd::std_specs::convert::FromSpecImpl<TimeRange> for PayoutFetchConstraints {
    open spec fn obeys_from_spec() -> bool {
        true
    }

    open spec fn from_spec(value: TimeRange) -> PayoutFetchConstraints {
        PayoutFetchConstraints::List(
            Box::new(
                PayoutListParams {
                    offset: 0,
                    starting_at: Some(value.start_time),
                    ending_at: value.end_time,
                    connector: None,
                    currency: None,
                    status: None,
                    payout_method: None,
                    profile_id: None,
                    customer_id: None,
                    starting_after_id: None,
                    ending_before_id: None,
                    entity_type: None,
                    merchant_order_reference_id: None,
                    limit: None,
                },
            ),
        )
    }
}

impl From<PayoutListFilterConstraints> for PayoutFetchConstraints {
    /// The one payout that is asked for by its id; else the list that the
    /// filters describe, from the offset on (from the first payout where none
    /// is given), with a capped limit.
    fn from(value: PayoutListFilterConstraints) -> (r: PayoutFetchConstraints) {
        if let Some(payout_id) = value.payout_id {
            Self::Single { payout_id }
        } else {
            Self::List(
                Box::new(
                    PayoutListParams {
                        offset: match value.offset {
                            Some(offset) => offset,
                            None => 0,
                        },
                        starting_at: match value.time_range {
                            Some(t) => Some(t.start_time),
                            None => None,
                        },
                        ending_at: match value.time_range {
                            Some(t) => t.end_time,
                            None => None,
                        },
                        connector: value.connector,
                        currency: value.currency,
                        status: value.status,
                        payout_method: value.payout_method,
                        profile_id: value.profile_id,
                        customer_id: value.customer_id,
                        starting_after_id: None,
                        ending_before_id: None,
                        entity_type: value.entity_type,
                        merchant_order_reference_id: value.merchant_order_reference_id,
                        limit: Some(cap(value.limit, PAYOUTS_LIST_MAX_LIMIT_POST)),
                    },
                ),
            )
        }
    }
}

impl vstd::std_specs::convert::FromSpecImpl<PayoutListFilterConstraints> for PayoutFetchConstraints {
    open spec fn obeys_from_spec() -> bool {
        true
    }

    open spec fn from_spec(value: PayoutListFilterConstraints) -> PayoutFetchConstraints {
        match value.payout_id {
            Some(payout_id) => PayoutFetchConstraints::Single { payout_id },
            None => PayoutFetchConstraints::List(
                Box::new(
                    PayoutListParams {
                        offset: match value.offset {
                            Some(offset) => offset,
                            None => 0,
                        },
                        starting_at: start_of(value.time_range),
                        ending_at: end_of(value.time_range),
                        connector: value.connector,
                        currency: value.currency,
                        status: value.status,
                        payout_method: value.payout_method,
                        profile_id: value.profile_id,
                        customer_id: value.customer_id,
                        starting_after_id: None,
                        ending_before_id: None,
                        entity_type: value.entity_type,
                        merchant_order_reference_id: value.merchant_order_reference_id,
                        limit: Some(capped(value.limit, PAYOUTS_LIST_MAX_LIMIT_POST)),
                    },
                ),
            ),
        }
    }
}

} // verus!
