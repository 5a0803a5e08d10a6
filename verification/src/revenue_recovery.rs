//! Requests that the recovery of revenue sends to a billing connector.

use vstd::prelude::*;

verus! {

/// Asks a billing connector for the state of a payment.
#[derive(Debug, Clone)]
pub struct BillingConnectorPaymentsSyncRequest {
    /// Identifies the payment to the billing connector.
    pub billing_connector_psync_id: String,
}

/// Reports the outcome of a payment attempt back to a billing connector.
#[derive(Debug, Clone)]
pub struct RevenueRecoveryRecordBackRequest {
    pub merchant_reference_id: String,
    /// The amount, in the minor unit of the currency.
    pub amount: i64,
    pub currency: String,
    pub payment_method_type: Option<String>,
    pub attempt_status: String,
    pub connector_transaction_id: Option<String>,
}

/// Asks a billing connector for an invoice.
#[derive(Debug, Clone)]
pub struct BillingConnectorInvoiceSyncRequest {
    pub billing_connector_invoice_id: String,
}

} // verus!
