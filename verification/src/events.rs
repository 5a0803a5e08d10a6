//! What kind of event a request or a response of the refunds API is recorded
//! as.

use vstd::prelude::*;

verus! {

/// The kind of event that an API call is recorded as.
#[derive(Debug, PartialEq, Eq)]
pub enum ApiEventsType {
    Refund { payment_id: Option<String>, refund_id: String },
    ResourceListAPI,
}

/// Mathematical model of an [`ApiEventsType`].
pub enum ApiEventsTypeView {
    Refund { payment_id: Option<Seq<char>>, refund_id: Seq<char> },
    ResourceListAPI,
}

impl DeepView for ApiEventsType {
    type V = ApiEventsTypeView;

    open spec fn deep_view(&self) -> ApiEventsTypeView {
        match self {
            ApiEventsType::Refund { payment_id, refund_id } => ApiEventsTypeView::Refund {
                payment_id: payment_id.deep_view(),
                refund_id: refund_id@,
            },
            ApiEventsType::ResourceListAPI => ApiEventsTypeView::ResourceListAPI,
        }
    }
}

impl View for ApiEventsType {
    type V = ApiEventsTypeView;

    open spec fn view(&self) -> ApiEventsTypeView {
        self.deep_view()
    }
}

/// Something that an API takes or gives, and that is recorded as an event.
pub trait ApiEventMetric {
    /// The kind of event that the value is recorded as, if it is recorded.
    fn get_api_event_type(&self) -> Option<ApiEventsType>;
}

/// Asks for a refund of a payment.
#[derive(Debug, Clone)]
pub struct RefundRequest {
    pub payment_id: String,
    /// The id that the refund is to have; one is made where none is given.
    pub refund_id: Option<String>,
}

/// A refund.
#[derive(Debug, Clone)]
pub struct RefundResponse {
    pub refund_id: String,
    pub payment_id: String,
}

/// Asks for a refund by its id.
#[derive(Debug, Clone)]
pub struct RefundsRetrieveRequest {
    pub refund_id: String,
}

/// Changes a refund.
#[derive(Debug, Clone)]
pub struct RefundUpdateRequest {
    pub refund_id: String,
}

/// Sets the state of a refund by hand.
#[derive(Debug, Clone)]
pub struct RefundManualUpdateRequest {
    pub refund_id: String,
}

/// The event of a refund with the given id, of the given payment if it is
/// known.
fn refund_event(payment_id: Option<&String>, refund_id: &String) -> (event: ApiEventsType)
    ensures
        event@ == (ApiEventsTypeView::Refund {
            payment_id: match payment_id {
                Some(id) => Some(id@),
                None => None,
            },
            refund_id: refund_id@,
        }),
{
    ApiEventsType::Refund {
        payment_id: match payment_id {
            Some(id) => Some(id.clone()),
            None => None,
        },
        refund_id: refund_id.clone(),
    }
}

impl ApiEventMetric for RefundRequest {
    /// A request that names the id of the refund is recorded as a refund of
    /// its payment; one that does not is not recorded.
    fn get_api_event_type(&self) -> (r: Option<ApiEventsType>)
        ensures
            r.deep_view() == match self.refund_id {
                Some(refund_id) => Some(
                    ApiEventsTypeView::Refund {
                        payment_id: Some(self.payment_id@),
                        refund_id: refund_id@,
                    },
                ),
                None => None,
            },
    {
        match &self.refund_id {
            Some(refund_id) => Some(refund_event(Some(&self.payment_id), refund_id)),
            None => None,
        }
    }
}

impl ApiEventMetric for RefundResponse {
    /// A refund is recorded with its id and that of its payment.
    fn get_api_event_type(&self) -> (r: Option<ApiEventsType>)
        ensures
            r.deep_view() == Some(
                ApiEventsTypeView::Refund {
                    payment_id: Some(self.payment_id@),
                    refund_id: self.refund_id@,
                },
            ),
    {
        Some(refund_event(Some(&self.payment_id), &self.refund_id))
    }
}

impl ApiEventMetric for RefundsRetrieveRequest {
    /// Recorded as a refund of a payment that is not known.
    fn get_api_event_type(&self) -> (r: Option<ApiEventsType>)
        ensures
            r.deep_view() == Some(
                ApiEventsTypeView::Refund { payment_id: None, refund_id: self.refund_id@ },
            ),
    {
        Some(refund_event(None, &self.refund_id))
    }
}

impl ApiEventMetric for RefundUpdateRequest {
    /// Recorded as a refund of a payment that is not known.
    fn get_api_event_type(&self) -> (r: Option<ApiEventsType>)
        ensures
            r.deep_view() == Some(
                ApiEventsTypeView::Refund { payment_id: None, refund_id: self.refund_id@ },
            ),
    {
        Some(refund_event(None, &self.refund_id))
    }
}

impl ApiEventMetric for RefundManualUpdateRequest {
    /// Recorded as a refund of a payment that is not known.
    fn get_api_event_type(&self) -> (r: Option<ApiEventsType>)
        ensures
            r.deep_view() == Some(
                ApiEventsTypeView::Refund { payment_id: None, refund_id: self.refund_id@ },
            ),
    {
        Some(refund_event(None, &self.refund_id))
    }
}

} // verus!
