//! Details that are stored with a payment.

use vstd::prelude::*;

verus! {

/// The unit in which the interval of a recurring payment is counted.
#[derive(Debug, Clone, Copy, PartialEq, Eq, Structural)]
pub enum RecurringPaymentIntervalUnit {
    Year,
    Month,
    Day,
    Hour,
    Minute,
}

/// The billing cycle of a recurring payment with Apple Pay. The dates are in
/// seconds since the Unix epoch.
#[derive(Debug, Clone, PartialEq)]
pub struct ApplePayRegularBillingDetails {
    /// The label that is shown to the user with the recurring details.
    pub label: String,
    /// The date of the first payment.
    pub recurring_payment_start_date: Option<i64>,
    /// The date of the final payment.
    pub recurring_payment_end_date: Option<i64>,
    /// The unit in which the interval between two payments is counted.
    pub recurring_payment_interval_unit: Option<RecurringPaymentIntervalUnit>,
    /// The number of units between two payments.
    pub recurring_payment_interval_count: Option<i32>,
}

/// What a recurring payment with Apple Pay shows to the user.
#[derive(Debug, Clone, PartialEq)]
pub struct ApplePayRecurringDetails {
    /// A description of the recurring payment.
    pub payment_description: String,
    /// The billing cycle.
    pub regular_billing: ApplePayRegularBillingDetails,
    /// A billing agreement that is shown before the user authorizes the
    /// payment.
    pub billing_agreement: Option<String>,
    /// Where the user can change or remove the payment method.
    pub management_url: String,
}

/// What came back from a redirection.
#[derive(Debug, Clone, PartialEq)]
pub struct RedirectResponse {
    pub param: Option<String>,
    pub json_payload: Option<serde_json::Value>,
}

/// How a billing connector knows the payment method of a customer.
#[derive(Debug, Clone, PartialEq)]
pub struct BillingConnectorPaymentDetails {
    /// The token with which the payment processor charges the payment method.
    pub payment_processor_token: String,
    /// The customer, as the billing connector knows them.
    pub connector_customer_id: String,
}

/// What a billing connector knows of a card.
#[derive(Debug, Clone, PartialEq)]
pub struct BillingConnectorAdditionalCardInfo {
    pub card_network: Option<String>,
    pub card_issuer: Option<String>,
}

/// What a billing connector knows of a payment method.
#[derive(Debug, Clone, PartialEq)]
pub enum BillingConnectorPaymentMethodDetails {
    Card(BillingConnectorAdditionalCardInfo),
}

/// What the recovery of revenue keeps with a payment.
#[derive(Debug, Clone, PartialEq)]
pub struct PaymentRevenueRecoveryMetadata {
    /// How often the payment was retried, by the billing connector and by the
    /// recovery together.
    pub total_retry_count: u16,
    /// Whether the call to the payment connector was made.
    pub payment_connector_transmission: String,
    /// The account at the billing connector, where invoices are updated.
    pub billing_connector_id: String,
    /// The account at the payment connector, where payments are retried.
    pub active_attempt_payment_connector_id: String,
    pub billing_connector_payment_details: BillingConnectorPaymentDetails,
    pub payment_method_type: String,
    pub payment_method_subtype: String,
    /// The payment connector through which the attempt was made.
    pub connector: String,
    /// When the next invoice will be made, in seconds since the Unix epoch.
    pub invoice_next_billing_time: Option<i64>,
    /// When the invoice started, in seconds since the Unix epoch.
    pub invoice_billing_started_at_time: Option<i64>,
    pub billing_connector_payment_method_details: Option<BillingConnectorPaymentMethodDetails>,
    /// The error code that the gateway gave for the first attempt.
    pub first_payment_attempt_pg_error_code: Option<String>,
    /// The decline code that the network gave for the first attempt.
    pub first_payment_attempt_network_decline_code: Option<String>,
    /// The advice code that the network gave for the first attempt.
    pub first_payment_attempt_network_advice_code: Option<String>,
}

/// Details of features that a payment uses.
#[derive(Debug, Clone, PartialEq)]
pub struct FeatureMetadata {
    /// What came back from a redirection, where there was one.
    pub redirect_response: Option<RedirectResponse>,
    /// Tags by which the payment is found in a search.
    pub search_tags: Option<Vec<String>>,
    /// What a recurring payment with Apple Pay shows to the user.
    pub apple_pay_recurring_details: Option<ApplePayRecurringDetails>,
    /// What the recovery of revenue keeps with the payment.
    pub payment_revenue_recovery_metadata: Option<PaymentRevenueRecoveryMetadata>,
}

impl FeatureMetadata {
    /// The subtype of the payment method, where the recovery of revenue knows
    /// it.
    pub fn get_payment_method_sub_type(&self) -> (r: Option<String>)
        ensures
            r.deep_view() == match self.payment_revenue_recovery_metadata {
                Some(recovery_metadata) => Some(recovery_metadata.payment_method_subtype@),
                None => None,
            },
    {
        match &self.payment_revenue_recovery_metadata {
            Some(recovery_metadata) => Some(recovery_metadata.payment_method_subtype.clone()),
            None => None,
        }
    }

    /// The type of the payment method, where the recovery of revenue knows it.
    pub fn get_payment_method_type(&self) -> (r: Option<String>)
        ensures
            r.deep_view() == match self.payment_revenue_recovery_metadata {
                Some(recovery_metadata) => Some(recovery_metadata.payment_method_type@),
                None => None,
            },
    {
        match &self.payment_revenue_recovery_metadata {
            Some(recovery_metadata) => Some(recovery_metadata.payment_method_type.clone()),
            None => None,
        }
    }

    /// The account at the billing connector, where the recovery of revenue
    /// knows it.
    pub fn get_billing_merchant_connector_account_id(&self) -> (r: Option<String>)
        ensures
            r.deep_view() == match self.payment_revenue_recovery_metadata {
                Some(recovery_metadata) => Some(recovery_metadata.billing_connector_id@),
                None => None,
            },
    {
        match &self.payment_revenue_recovery_metadata {
            Some(recovery_metadata) => Some(recovery_metadata.billing_connector_id.clone()),
            None => None,
        }
    }
}

} // verus!
